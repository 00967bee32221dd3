use covermint::control::ControlCommand;
use covermint::model::media::{MediaState, PlaybackStatus, TrackMetadata};
use covermint::mpris::{
    bus_name_for_player, media_state_from_properties, metadata_artist, metadata_length_microseconds,
    metadata_position_microseconds, metadata_track_number, normalize_player_name,
    parse_playback_status, player_names, players_in_name_order, value_to_i64, value_to_string,
    value_to_u64, PlayerEntry, PlayerProperties, PropertyValue,
};
use covermint::player::{query_player, selector_matches_player};

fn meta(title: &str) -> TrackMetadata {
    TrackMetadata {
        artist: "Artist".to_string(),
        title: title.to_string(),
        album: String::new(),
        track_number: String::new(),
        length: String::new(),
        length_microseconds: None,
        position: String::new(),
        position_microseconds: None,
    }
}

fn entry(name: &str, status: PlaybackStatus, art: Option<&str>, title: &str) -> PlayerEntry {
    PlayerEntry {
        name: name.to_string(),
        state: MediaState { status, art_url: art.map(|a| a.to_string()), metadata: meta(title) },
    }
}

#[test]
fn control_commands_read_back() {
    for c in [ControlCommand::On, ControlCommand::Off, ControlCommand::Toggle] {
        assert_eq!(ControlCommand::parse_wire(c.as_wire()), Some(c));
    }
    assert_eq!(ControlCommand::Toggle.as_wire(), "lyrics:toggle");
    assert_eq!(ControlCommand::parse_wire(" lyrics:on\n"), Some(ControlCommand::On));
    assert_eq!(ControlCommand::parse_wire("LYRICS:ON"), None);
    assert_eq!(ControlCommand::parse_wire(""), None);
}

#[test]
fn player_names_and_bus_names() {
    assert_eq!(normalize_player_name("org.mpris.MediaPlayer2.spotify"), "spotify");
    assert_eq!(normalize_player_name("spotify"), "spotify");
    assert_eq!(bus_name_for_player("vlc"), "org.mpris.MediaPlayer2.vlc");
    assert_eq!(bus_name_for_player("org.mpris.MediaPlayer2.vlc"), "org.mpris.MediaPlayer2.vlc");
}

#[test]
fn playback_status_text() {
    assert_eq!(parse_playback_status(" Playing "), PlaybackStatus::Playing);
    assert_eq!(parse_playback_status("Paused"), PlaybackStatus::Paused);
    assert_eq!(parse_playback_status("Stopped"), PlaybackStatus::NotPlaying);
    assert_eq!(parse_playback_status("playing"), PlaybackStatus::NotPlaying);
}

#[test]
fn property_values() {
    assert_eq!(value_to_string(&PropertyValue::Text("x".to_string())), Some("x".to_string()));
    assert_eq!(value_to_string(&PropertyValue::Text(String::new())), None);
    assert_eq!(value_to_string(&PropertyValue::Int64(3)), None);
    assert_eq!(value_to_i64(&PropertyValue::UInt64(u64::MAX)), None);
    assert_eq!(value_to_i64(&PropertyValue::Int32(-4)), Some(-4));
    assert_eq!(value_to_u64(&PropertyValue::Int64(-4)), None);
    assert_eq!(value_to_u64(&PropertyValue::UInt32(9)), Some(9));
}

#[test]
fn metadata_entries() {
    let names = Some(PropertyValue::TextList(vec![" ".to_string(), "First".to_string(), "Second".to_string()]));
    assert_eq!(metadata_artist(&names), "First");
    assert_eq!(metadata_artist(&Some(PropertyValue::Text("Solo".to_string()))), "Solo");
    assert_eq!(metadata_artist(&None), "");
    assert_eq!(metadata_track_number(&Some(PropertyValue::Int32(-2))), "-2");
    assert_eq!(metadata_track_number(&Some(PropertyValue::Text("07".to_string()))), "07");
    assert_eq!(metadata_length_microseconds(&Some(PropertyValue::UInt64(u64::MAX))), Some(u64::MAX));
    assert_eq!(metadata_length_microseconds(&Some(PropertyValue::Int64(-1))), None);
    assert_eq!(metadata_length_microseconds(&Some(PropertyValue::Int32(5))), Some(5));
    assert_eq!(metadata_position_microseconds(&Some(PropertyValue::Int32(5))), None);
    assert_eq!(metadata_position_microseconds(&Some(PropertyValue::Int64(5))), Some(5));
}

#[test]
fn media_state_from_reported_properties() {
    let p = PlayerProperties {
        status: "Playing".to_string(),
        art_url: Some(PropertyValue::Text("https://example.org/a.jpg".to_string())),
        artist: Some(PropertyValue::TextList(vec!["Band".to_string()])),
        title: Some(PropertyValue::Text("Tune".to_string())),
        album: None,
        track_number: Some(PropertyValue::Int32(3)),
        length: Some(PropertyValue::Int64(185_000_000)),
        position: Some(PropertyValue::Int64(61_000_000)),
    };
    let s = media_state_from_properties(&p);
    assert_eq!(s.status, PlaybackStatus::Playing);
    assert_eq!(s.art_url.as_deref(), Some("https://example.org/a.jpg"));
    assert_eq!(s.metadata.artist, "Band");
    assert_eq!(s.metadata.title, "Tune");
    assert_eq!(s.metadata.album, "");
    assert_eq!(s.metadata.track_number, "3");
    assert_eq!(s.metadata.length, "3:05");
    assert_eq!(s.metadata.position, "1:01");
    assert_eq!(s.metadata.position_microseconds, Some(61_000_000));
}

#[test]
fn selectors_match_short_and_bus_names() {
    assert!(selector_matches_player("spotify", "Spotify"));
    assert!(selector_matches_player("spotify", "org.mpris.MediaPlayer2.SPOTIFY"));
    assert!(!selector_matches_player("spotify", "vlc"));
}

#[test]
fn auto_prefers_playing_with_artwork_and_the_last_of_equals() {
    let players = vec![
        entry("a", PlaybackStatus::Paused, Some("x"), "A"),
        entry("b", PlaybackStatus::Playing, None, "B"),
        entry("c", PlaybackStatus::Playing, Some("y"), "C"),
        entry("d", PlaybackStatus::Playing, Some("z"), "D"),
    ];
    let s = query_player(&players, "AUTO", true).unwrap();
    assert_eq!(s.metadata.title, "D");
    let s = query_player(&players, "b", false).unwrap();
    assert_eq!(s.status, PlaybackStatus::Playing);
    assert_eq!(s.metadata.title, "");
    assert!(query_player(&players, "nobody", true).is_none());
    assert!(query_player(&Vec::new(), "auto", true).is_none());
    assert_eq!(player_names(&players), vec!["a", "b", "c", "d"]);
}

#[test]
fn snapshot_name_order() {
    let ordered = vec![
        entry("chromium", PlaybackStatus::Paused, None, "A"),
        entry("mpv", PlaybackStatus::Playing, None, "B"),
        entry("mpv.instance2", PlaybackStatus::NotPlaying, None, "C"),
        entry("spotify", PlaybackStatus::Playing, None, "D"),
    ];
    assert!(players_in_name_order(&ordered));
    assert!(players_in_name_order(&Vec::new()));
    assert!(players_in_name_order(&vec![entry("x", PlaybackStatus::NotPlaying, None, "")]));
    let swapped = vec![
        entry("spotify", PlaybackStatus::Playing, None, "D"),
        entry("mpv", PlaybackStatus::Playing, None, "B"),
    ];
    assert!(!players_in_name_order(&swapped));
    let twice = vec![
        entry("mpv", PlaybackStatus::Playing, None, "B"),
        entry("mpv", PlaybackStatus::Paused, None, "C"),
    ];
    assert!(!players_in_name_order(&twice));
}

#[test]
fn string_order_matches_std() {
    let words = ["", "a", "B", "b", "ab", "abc", "Zeta", "zeta", "é", "e\u{301}", "mpv", "mpv.x"];
    for a in words {
        for b in words {
            let pair = vec![
                entry(a, PlaybackStatus::NotPlaying, None, ""),
                entry(b, PlaybackStatus::NotPlaying, None, ""),
            ];
            assert_eq!(players_in_name_order(&pair), a < b, "{a:?} < {b:?}");
        }
    }
}
