use covermint::lyrics::lookup::{
    build_url, fetch_synced_lyrics, finish_lyrics_lookup, first_lyrics_request, lookup_synced_lyrics,
    lyrics_request_url, FetchProgress, LookupStep, LyricsCacheEntry, LyricsLookupResult,
    LyricsRequest, LyricsResponse,
};
use covermint::lyrics::lrc::{parse_lrc_timestamp_microseconds, parse_synced_lyrics, LyricLine, SyncedLyrics};
use covermint::lyrics::signature::{
    best_search_match, canonicalize, metadata_duration_seconds, score_search_match,
    signature_from_metadata, ApiLyricsRecord, LyricsSignature,
};
use covermint::model::media::TrackMetadata;

fn metadata(artist: &str, title: &str, album: &str, length: &str, length_us: Option<u64>) -> TrackMetadata {
    TrackMetadata {
        artist: artist.to_string(),
        title: title.to_string(),
        album: album.to_string(),
        track_number: String::new(),
        length: length.to_string(),
        length_microseconds: length_us,
        position: String::new(),
        position_microseconds: None,
    }
}

fn signature(track: &str, artist: &str, album: &str, duration: Option<u64>) -> LyricsSignature {
    LyricsSignature {
        cache_key: format!("{artist}\u{1f}{track}"),
        track_name: track.to_string(),
        artist_name: artist.to_string(),
        album_name: album.to_string(),
        duration_seconds: duration,
    }
}

fn record(track: &str, artist: &str, album: Option<&str>, duration: Option<u64>, lyrics: Option<&str>) -> ApiLyricsRecord {
    ApiLyricsRecord {
        track_name: track.to_string(),
        artist_name: artist.to_string(),
        album_name: album.map(|a| a.to_string()),
        duration_seconds: duration,
        synced_lyrics: lyrics.map(|l| l.to_string()),
    }
}

fn texts(lyrics: &SyncedLyrics) -> Vec<(u64, String)> {
    lyrics.lines.iter().map(|l| (l.at_microseconds, l.text.clone())).collect()
}

#[test]
fn lrc_timestamps() {
    assert_eq!(parse_lrc_timestamp_microseconds("01:02.5"), Some(62_500_000));
    assert_eq!(parse_lrc_timestamp_microseconds(" 1:02.123456789 "), Some(62_123_456));
    assert_eq!(parse_lrc_timestamp_microseconds("0:07"), Some(7_000_000));
    assert_eq!(parse_lrc_timestamp_microseconds("0:07."), Some(7_000_000));
    assert_eq!(parse_lrc_timestamp_microseconds("0:60.00"), None);
    assert_eq!(parse_lrc_timestamp_microseconds("ar:Artist"), None);
    assert_eq!(parse_lrc_timestamp_microseconds(""), None);
}

#[test]
fn lrc_lines_are_sorted_and_deduplicated() {
    let raw = "[00:12.34]Line one\n[00:05.00][00:20.00]Chorus\nno tag\n[ar:Artist]\n[00:05.00] Chorus \r\n";
    let lyrics = parse_synced_lyrics(Some(raw)).unwrap();
    assert_eq!(
        texts(&lyrics),
        vec![
            (5_000_000, "Chorus".to_string()),
            (12_340_000, "Line one".to_string()),
            (20_000_000, "Chorus".to_string()),
        ]
    );
    assert!(parse_synced_lyrics(Some("   ")).is_none());
    assert!(parse_synced_lyrics(Some("plain words only")).is_none());
    assert!(parse_synced_lyrics(None).is_none());
}

#[test]
fn current_line_follows_position() {
    let lyrics = parse_synced_lyrics(Some("[00:05.00]a\n[00:10.00]\n[00:15.00]c")).unwrap();
    assert_eq!(lyrics.current_line_index(0), None);
    assert_eq!(lyrics.current_line_index(5_000_000), Some(0));
    assert_eq!(lyrics.current_line_index(12_000_000), Some(1));
    assert_eq!(lyrics.current_line_index(99_000_000), Some(2));
    assert_eq!(lyrics.line_text(0), Some("a"));
    assert_eq!(lyrics.line_text(1), None);
    assert_eq!(lyrics.line_text(7), None);
}

#[test]
fn canonical_names() {
    assert_eq!(canonicalize("  The  Beatles!! "), "the beatles");
    assert_eq!(canonicalize("Björk"), "bj rk");
    assert_eq!(canonicalize("\u{130}X"), "i x");
    assert_eq!(canonicalize("---"), "");
}

#[test]
fn canonical_name_shape_and_fixed_point() {
    assert_eq!(canonicalize("  Daft-Punk!!  feat. X "), "daft punk feat x");
    for name in ["  Daft-Punk!!  feat. X ", "Björk", "\u{130}X", "ÉCOLE\t\tNº 9", "---", ""] {
        let once = canonicalize(name);
        assert_eq!(canonicalize(&once), once);
        assert!(!once.starts_with(' ') && !once.ends_with(' '));
        assert!(!once.contains("  "));
        assert!(once
            .chars()
            .all(|c| c.is_ascii_lowercase() || c.is_ascii_digit() || c == ' '));
    }
}

#[test]
fn signature_needs_title_and_artist() {
    assert!(signature_from_metadata(&metadata("", "Song", "", "", None)).is_none());
    assert!(signature_from_metadata(&metadata("Artist", "  ", "", "", None)).is_none());
    let s = signature_from_metadata(&metadata(" Daft Punk ", "One More Time", "Discovery", "5:20", Some(320_500_000))).unwrap();
    assert_eq!(s.track_name, "One More Time");
    assert_eq!(s.artist_name, "Daft Punk");
    assert_eq!(s.duration_seconds, Some(320));
    assert_eq!(s.cache_key(), "daft punk\u{1f}one more time\u{1f}discovery\u{1f}320");
    let s = signature_from_metadata(&metadata("A", "B", "", "3:07", None)).unwrap();
    assert_eq!(s.duration_seconds, Some(187));
    assert_eq!(s.cache_key(), "a\u{1f}b\u{1f}\u{1f}187");
    assert_eq!(metadata_duration_seconds(&metadata("A", "B", "", "3:07", None)), Some(187));
}

#[test]
fn search_scores() {
    let s = signature("Song", "Artist", "Album", Some(200));
    assert_eq!(score_search_match(&s, &record("song", "ARTIST", Some("album"), Some(201), Some("x"))), 120 + 120 + 40 + 30 - 1);
    assert_eq!(score_search_match(&s, &record("Other", "Artist", None, Some(300), Some("x"))), 120 - 45);
    assert_eq!(score_search_match(&s, &record("Other", "Else", None, None, None)), 0);
}

#[test]
fn best_match_is_the_last_of_the_highest_with_lyrics() {
    let s = signature("Song", "Artist", "", None);
    let records = vec![
        record("Song", "Artist", None, None, Some("[00:01.00]a")),
        record("Song", "Artist", None, None, None),
        record("Song", "Artist", None, None, Some("[00:01.00]b")),
        record("Nope", "Artist", None, None, Some("[00:01.00]c")),
    ];
    assert_eq!(best_search_match(&s, &records), Some(2));
    let none = vec![record("Song", "Artist", None, None, Some("  "))];
    assert_eq!(best_search_match(&s, &none), None);
}

#[test]
fn urls_are_form_encoded() {
    let params = vec![
        ("track_name".to_string(), "Rock & Roll".to_string()),
        ("artist_name".to_string(), "AC/DC".to_string()),
    ];
    assert_eq!(build_url("/api/search", &params), "https://lrclib.net/api/search?track_name=Rock+%26+Roll&artist_name=AC%2FDC");
    assert_eq!(build_url("/api/search", &Vec::new()), "https://lrclib.net/api/search");
    let s = signature("Song", "Artist", "Al bum", Some(200));
    assert_eq!(
        lyrics_request_url(&s, LyricsRequest::Get(200)),
        "https://lrclib.net/api/get?track_name=Song&artist_name=Artist&album_name=Al+bum&duration=200"
    );
}

#[test]
fn lookup_starts_with_exact_requests_when_it_can() {
    assert_eq!(first_lyrics_request(&signature("S", "A", "Album", Some(10))), LyricsRequest::GetCached(10));
    assert_eq!(first_lyrics_request(&signature("S", "A", " ", Some(10))), LyricsRequest::Search);
    assert_eq!(first_lyrics_request(&signature("S", "A", "Album", None)), LyricsRequest::Search);
}

#[test]
fn fetch_falls_back_from_get_to_search() {
    let s = signature("Song", "Artist", "Album", Some(10));
    match fetch_synced_lyrics(&s, LyricsRequest::GetCached(10), LyricsResponse::Record(None)) {
        FetchProgress::Next(r) => assert_eq!(r, LyricsRequest::Get(10)),
        FetchProgress::Done(_) => panic!("expected the next request"),
    }
    let no_lyrics = record("Song", "Artist", None, None, None);
    match fetch_synced_lyrics(&s, LyricsRequest::Get(10), LyricsResponse::Record(Some(no_lyrics))) {
        FetchProgress::Next(r) => assert_eq!(r, LyricsRequest::Search),
        FetchProgress::Done(_) => panic!("expected a search"),
    }
    let found = vec![record("Song", "Artist", None, None, Some("[00:01.00]hi"))];
    match fetch_synced_lyrics(&s, LyricsRequest::Search, LyricsResponse::Records(Some(found))) {
        FetchProgress::Done(Some(l)) => assert_eq!(texts(&l), vec![(1_000_000, "hi".to_string())]),
        _ => panic!("expected lyrics"),
    }
    match fetch_synced_lyrics(&s, LyricsRequest::Search, LyricsResponse::Records(None)) {
        FetchProgress::Done(None) => {}
        _ => panic!("expected nothing"),
    }
}

#[test]
fn cached_entries_answer_lookups() {
    let s = signature("Song", "Artist", "", None);
    let entry = LyricsCacheEntry { cache_key: s.cache_key.clone(), missing: true, lines: Vec::new() };
    assert!(matches!(lookup_synced_lyrics(&s, true, Some(entry)), LookupStep::Finished(LyricsLookupResult::Missing)));
    let other = LyricsCacheEntry { cache_key: "elsewhere".to_string(), missing: true, lines: Vec::new() };
    assert!(matches!(lookup_synced_lyrics(&s, false, Some(other)), LookupStep::Finished(LyricsLookupResult::NotLoaded)));
    assert!(matches!(lookup_synced_lyrics(&s, true, None), LookupStep::Fetch(LyricsRequest::Search)));
    let lines = vec![LyricLine { at_microseconds: 3, text: "x".to_string() }];
    let hit = LyricsCacheEntry { cache_key: s.cache_key.clone(), missing: false, lines };
    match lookup_synced_lyrics(&s, false, Some(hit)) {
        LookupStep::Finished(LyricsLookupResult::Found(l)) => assert_eq!(texts(&l), vec![(3, "x".to_string())]),
        _ => panic!("expected cached lyrics"),
    }
}

#[test]
fn finished_lookup_is_cached_as_found_or_missing() {
    let s = signature("Song", "Artist", "", None);
    let (entry, result) = finish_lyrics_lookup(&s, None);
    assert!(entry.missing);
    assert_eq!(entry.cache_key, s.cache_key);
    assert!(matches!(result, LyricsLookupResult::Missing));
    let lyrics = SyncedLyrics { lines: vec![LyricLine { at_microseconds: 1, text: "a".to_string() }] };
    let (entry, result) = finish_lyrics_lookup(&s, Some(lyrics));
    assert!(!entry.missing);
    assert_eq!(entry.lines.len(), 1);
    assert!(matches!(result, LyricsLookupResult::Found(_)));
}

#[test]
fn stored_entry_answers_the_next_lookup() {
    let s = signature("Song", "Artist", "", None);
    let lyrics = SyncedLyrics { lines: vec![LyricLine { at_microseconds: 9, text: "la".to_string() }] };
    let (entry, _) = finish_lyrics_lookup(&s, Some(lyrics));
    match lookup_synced_lyrics(&s, true, Some(entry)) {
        LookupStep::Finished(LyricsLookupResult::Found(l)) => assert_eq!(texts(&l), vec![(9, "la".to_string())]),
        _ => panic!("expected the stored lyrics"),
    }
    let (entry, _) = finish_lyrics_lookup(&s, None);
    assert!(matches!(lookup_synced_lyrics(&s, true, Some(entry)), LookupStep::Finished(LyricsLookupResult::Missing)));
}
