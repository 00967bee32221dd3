//! Track signatures: the normalized names and duration by which lyrics are
//! cached and searched, and the scoring of search results against them.
use vstd::prelude::*;

use crate::model::media::TrackMetadata;
use crate::text::{
    ascii_alphanumeric, ascii_lower, chars_equal, chars_of, decimal_text, is_ascii_alphanumeric,
    is_ascii_upper, is_white_space, lemma_trim_end_prefix, lemma_trim_start_suffix, push_chars,
    push_decimal, string_of, trim, trim_bounds, trim_chars, trim_end, trim_start,
};
use crate::timestamp::{parse_timestamp_microseconds, parse_timestamp_seconds, timestamp_seconds_value};

verus! {

/// The characters that `char::to_lowercase` yields for `c`.
pub uninterp spec fn char_lowercase(c: char) -> Seq<char>;

/// Calls `char::to_lowercase`, which yields the character's Unicode
/// lower-case mapping. The mapping is named, not spelled out; of it the
/// contract claims that an ASCII character maps to its ASCII lower case, and
/// that no character's lower case holds an ASCII capital letter.
#[verifier::external_body]
fn lowercase_of(c: char) -> (r: Vec<char>)
    ensures
        r@ == char_lowercase(c),
        (c as u32) < 128 ==> r@ == seq![ascii_lower(c)],
        forall|k: int| 0 <= k < r@.len() ==> !is_ascii_upper(#[trigger] r@[k]),
{
    c.to_lowercase().collect()
}

/// What lower-casing makes of one character: the ASCII lower case of an ASCII
/// character, the Unicode mapping of any other.
pub open spec fn lower_char(c: char) -> Seq<char> {
    if (c as u32) < 128 {
        seq![ascii_lower(c)]
    } else {
        char_lowercase(c)
    }
}

/// The text lower-cased character by character.
pub open spec fn lowered(s: Seq<char>) -> Seq<char>
    decreases s.len(),
{
    if s.len() == 0 {
        seq![]
    } else {
        lowered(s.drop_last()) + lower_char(s.last())
    }
}

/// ASCII letters and digits kept, every run of other characters made one space.
pub open spec fn collapse_non_words(s: Seq<char>) -> Seq<char>
    decreases s.len(),
{
    if s.len() == 0 {
        seq![]
    } else {
        let p = collapse_non_words(s.drop_last());
        let c = s.last();
        if is_ascii_alphanumeric(c) {
            p.push(c)
        } else if p.len() > 0 && p.last() == ' ' {
            p
        } else {
            p.push(' ')
        }
    }
}

/// The normalized form of a name that matching compares.
pub open spec fn canonical(s: Seq<char>) -> Seq<char> {
    trim(collapse_non_words(lowered(s)))
}

/// Every character an ASCII letter, an ASCII digit or a space, and no two
/// spaces side by side.
pub open spec fn words_and_single_spaces(t: Seq<char>) -> bool {
    &&& forall|k: int| 0 <= k < t.len() ==> is_ascii_alphanumeric(#[trigger] t[k]) || t[k] == ' '
    &&& forall|j: int, k: int|
        #![trigger t[j], t[k]]
        0 <= j && k == j + 1 && k < t.len() ==> !(t[j] == ' ' && t[k] == ' ')
}

/// Words of ASCII letters and digits separated by single spaces, with no
/// space at either end.
pub open spec fn spaced_words(t: Seq<char>) -> bool {
    &&& words_and_single_spaces(t)
    &&& t.len() > 0 ==> t[0] != ' ' && t.last() != ' '
}

/// No ASCII capital letter.
pub open spec fn has_no_capital(t: Seq<char>) -> bool {
    forall|k: int| 0 <= k < t.len() ==> !is_ascii_upper(#[trigger] t[k])
}

/// The shape of a canonical name: words of ASCII lower-case letters and
/// digits, separated by single spaces, with no space at either end.
pub open spec fn canonical_shape(t: Seq<char>) -> bool {
    spaced_words(t) && has_no_capital(t)
}

proof fn lemma_collapse_words(s: Seq<char>)
    ensures
        words_and_single_spaces(collapse_non_words(s)),
    decreases s.len(),
{
    if s.len() > 0 {
        lemma_collapse_words(s.drop_last());
    }
}

proof fn lemma_subrange_words(t: Seq<char>, a: int, b: int)
    requires
        words_and_single_spaces(t),
        0 <= a <= b <= t.len(),
    ensures
        words_and_single_spaces(t.subrange(a, b)),
{
    let u = t.subrange(a, b);
    assert forall|j: int, k: int| 0 <= j && k == j + 1 && k < u.len() implies !(u[j] == ' '
        && u[k] == ' ') by {
        assert(u[j] == t[a + j] && u[k] == t[a + k]);
    }
}

proof fn lemma_subrange_no_capital(t: Seq<char>, a: int, b: int)
    requires
        has_no_capital(t),
        0 <= a <= b <= t.len(),
    ensures
        has_no_capital(t.subrange(a, b)),
{
    assert forall|k: int| 0 <= k < b - a implies !is_ascii_upper(#[trigger] t.subrange(a, b)[k]) by {
        assert(t.subrange(a, b)[k] == t[a + k]);
    }
}

/// Trimming keeps the characters it leaves as they were and their order.
proof fn lemma_trim_subrange(t: Seq<char>) -> (r: (int, int))
    ensures
        0 <= r.0 <= r.1 <= t.len(),
        trim(t) == t.subrange(r.0, r.1),
        trim(t).len() > 0 ==> !is_white_space(trim(t)[0]) && !is_white_space(trim(t).last()),
{
    let a = lemma_trim_start_suffix(t);
    let u = trim_start(t);
    let b = lemma_trim_end_prefix(u);
    assert(u.subrange(0, b) =~= t.subrange(a, a + b));
    if trim(t).len() > 0 {
        assert(trim(t)[0] == u[0]);
    }
    (a, a + b)
}

/// Every canonical name is made of words of ASCII letters and digits,
/// separated by single spaces, with no space at either end.
pub proof fn law_canonical_is_spaced_words(s: Seq<char>)
    ensures
        spaced_words(canonical(s)),
{
    let c = collapse_non_words(lowered(s));
    lemma_collapse_words(lowered(s));
    let (a, b) = lemma_trim_subrange(c);
    lemma_subrange_words(c, a, b);
}

proof fn lemma_lowered_plain(t: Seq<char>)
    requires
        forall|k: int|
            0 <= k < t.len() ==> (is_ascii_alphanumeric(#[trigger] t[k]) && !is_ascii_upper(t[k]))
                || t[k] == ' ',
    ensures
        lowered(t) == t,
    decreases t.len(),
{
    if t.len() > 0 {
        lemma_lowered_plain(t.drop_last());
        assert(t.drop_last().push(t.last()) =~= t);
    }
}

proof fn lemma_collapse_keeps_words(t: Seq<char>)
    requires
        words_and_single_spaces(t),
    ensures
        collapse_non_words(t) == t,
    decreases t.len(),
{
    if t.len() > 0 {
        lemma_subrange_words(t, 0, t.len() - 1);
        assert(t.subrange(0, t.len() - 1) =~= t.drop_last());
        lemma_collapse_keeps_words(t.drop_last());
        assert(t.drop_last().push(t.last()) =~= t);
        if t.len() > 1 {
            assert(t[t.len() - 2] == t.drop_last().last());
        }
    }
}

/// A name already in canonical shape is its own canonical form.
pub proof fn law_canonical_shape_is_fixed(t: Seq<char>)
    requires
        canonical_shape(t),
    ensures
        canonical(t) == t,
{
    lemma_lowered_plain(t);
    lemma_collapse_keeps_words(t);
    assert(trim_start(t) == t);
    assert(trim_end(t) == t);
}

/// Lower-cases a name, keeps its ASCII letters and digits, makes each run of
/// other characters a single space, and trims the result, which is then in
/// canonical shape and its own canonical form.
pub fn canonicalize(input: &str) -> (r: String)
    ensures
        r@ == canonical(input@),
        canonical_shape(r@),
        canonical(r@) == r@,
{
    let v = chars_of(input);
    let mut normalized: Vec<char> = Vec::new();
    let mut previous_space = false;
    let mut i: usize = 0;
    while i < v.len()
        invariant
            i <= v@.len(),
            normalized@ == collapse_non_words(lowered(v@.take(i as int))),
            previous_space == (normalized@.len() > 0 && normalized@.last() == ' '),
            has_no_capital(normalized@),
        decreases v@.len() - i,
    {
        let lower = lowercase_of(v[i]);
        assert(lower@ == lower_char(v@[i as int]));
        let ghost base = lowered(v@.take(i as int));
        assert(v@.take(i + 1).drop_last() =~= v@.take(i as int));
        let mut j: usize = 0;
        while j < lower.len()
            invariant
                j <= lower@.len(),
                normalized@ == collapse_non_words(base + lower@.take(j as int)),
                previous_space == (normalized@.len() > 0 && normalized@.last() == ' '),
                has_no_capital(normalized@),
                forall|k: int| 0 <= k < lower@.len() ==> !is_ascii_upper(#[trigger] lower@[k]),
            decreases lower@.len() - j,
        {
            let character = lower[j];
            assert((base + lower@.take(j + 1)).drop_last() =~= base + lower@.take(j as int));
            assert((base + lower@.take(j + 1)).last() == character);
            if ascii_alphanumeric(character) {
                normalized.push(character);
                previous_space = false;
            } else if !previous_space {
                normalized.push(' ');
                previous_space = true;
            }
            j = j + 1;
        }
        assert(lower@.take(j as int) =~= lower@);
        i = i + 1;
    }
    assert(v@.take(i as int) =~= v@);
    let trimmed = trim_chars(normalized.as_slice());
    proof {
        let (a, b) = lemma_trim_subrange(normalized@);
        lemma_subrange_no_capital(normalized@, a, b);
        law_canonical_is_spaced_words(input@);
        law_canonical_shape_is_fixed(trimmed@);
    }
    string_of(trimmed.as_slice())
}

#[derive(Clone, Debug)]
pub struct LyricsSignature {
    pub cache_key: String,
    pub track_name: String,
    pub artist_name: String,
    pub album_name: String,
    pub duration_seconds: Option<u64>,
}

/// The duration in seconds that a signature takes from the metadata.
pub open spec fn metadata_duration(m: TrackMetadata) -> Option<u64> {
    match m.length_microseconds {
        Some(v) => Some((v / 1_000_000) as u64),
        None => timestamp_seconds_value(m.length@),
    }
}

/// The cache key: the canonical artist, track and album and the duration,
/// separated by the unit separator.
pub open spec fn signature_key(
    artist: Seq<char>,
    track: Seq<char>,
    album: Seq<char>,
    duration: Option<u64>,
) -> Seq<char> {
    canonical(artist) + seq!['\u{1f}'] + canonical(track) + seq!['\u{1f}'] + canonical(album)
        + seq!['\u{1f}'] + match duration {
        Some(d) => decimal_text(d as nat),
        None => seq![],
    }
}

/// The signature of a track with a title and an artist, from its metadata.
pub open spec fn signature_of(m: TrackMetadata, s: LyricsSignature) -> bool {
    &&& s.track_name@ == trim(m.title@)
    &&& s.artist_name@ == trim(m.artist@)
    &&& s.album_name@ == trim(m.album@)
    &&& s.duration_seconds == metadata_duration(m)
    &&& s.cache_key@ == signature_key(
        s.artist_name@,
        s.track_name@,
        s.album_name@,
        s.duration_seconds,
    )
}

/// The duration that the metadata's `length` text gives, in seconds.
pub fn metadata_duration_seconds(metadata: &TrackMetadata) -> (r: Option<u64>)
    ensures
        r == timestamp_seconds_value(metadata.length@),
{
    parse_timestamp_seconds(metadata.length.as_str())
}

/// The signature by which a track's lyrics are cached and looked up; `None`
/// when the title or the artist is blank.
pub fn signature_from_metadata(metadata: &TrackMetadata) -> (r: Option<LyricsSignature>)
    ensures
        match r {
            None => trim(metadata.title@).len() == 0 || trim(metadata.artist@).len() == 0,
            Some(s) => trim(metadata.title@).len() > 0 && trim(metadata.artist@).len() > 0
                && signature_of(*metadata, s),
        },
{
    let track = trim_chars(chars_of(metadata.title.as_str()).as_slice());
    let artist = trim_chars(chars_of(metadata.artist.as_str()).as_slice());
    if track.len() == 0 || artist.len() == 0 {
        return None;
    }
    let album = trim_chars(chars_of(metadata.album.as_str()).as_slice());
    let duration_seconds = match metadata.length_microseconds {
        Some(value) => Some(value / 1_000_000),
        None => match metadata_duration_seconds(metadata) {
            Some(seconds) => Some(seconds),
            None => match parse_timestamp_microseconds(metadata.length.as_str()) {
                Some(value) => Some(value / 1_000_000),
                None => None,
            },
        },
    };
    let track_name = string_of(track.as_slice());
    let artist_name = string_of(artist.as_slice());
    let album_name = string_of(album.as_slice());
    let mut key = canonicalize(artist_name.as_str());
    key.push('\u{1f}');
    let c = chars_of(canonicalize(track_name.as_str()).as_str());
    push_chars(&mut key, c.as_slice());
    key.push('\u{1f}');
    let c = chars_of(canonicalize(album_name.as_str()).as_str());
    push_chars(&mut key, c.as_slice());
    key.push('\u{1f}');
    match duration_seconds {
        Some(d) => push_decimal(&mut key, d),
        None => {},
    }
    assert(key@ =~= signature_key(artist_name@, track_name@, album_name@, duration_seconds));
    Some(
        LyricsSignature {
            cache_key: key,
            track_name,
            artist_name,
            album_name,
            duration_seconds,
        },
    )
}

impl LyricsSignature {
    /// The key under which the lyrics of this track are cached.
    pub fn cache_key(&self) -> (r: &str)
        ensures
            r@ == self.cache_key@,
    {
        self.cache_key.as_str()
    }
}

// ---------------------------------------------------------------------------
// Search results
// ---------------------------------------------------------------------------

/// A lyrics record as lrclib.net returns it.
pub struct ApiLyricsRecord {
    pub track_name: String,
    pub artist_name: String,
    pub album_name: Option<String>,
    /// The duration rounded to whole seconds, negative ones as 0; `None`
    /// when the record has none or it is not a finite number.
    pub duration_seconds: Option<u64>,
    pub synced_lyrics: Option<String>,
}

pub open spec fn optional_text(s: Option<String>) -> Seq<char> {
    match s {
        Some(t) => t@,
        None => seq![],
    }
}

pub open spec fn abs_diff(a: u64, b: u64) -> int {
    if a >= b {
        a - b
    } else {
        b - a
    }
}

/// How well a search result matches the signature.
pub open spec fn search_score(s: LyricsSignature, r: ApiLyricsRecord) -> int {
    (if canonical(r.track_name@) == canonical(s.track_name@) {
        120int
    } else {
        0int
    }) + (if canonical(r.artist_name@) == canonical(s.artist_name@) {
        120int
    } else {
        0int
    }) + (if trim(s.album_name@).len() > 0 && canonical(optional_text(r.album_name)) == canonical(
        s.album_name@,
    ) {
        40int
    } else {
        0int
    }) + match (s.duration_seconds, r.duration_seconds) {
        (Some(expected), Some(actual)) => {
            let delta = abs_diff(actual, expected);
            (if delta <= 2 {
                30int
            } else {
                0int
            }) - (if delta < 45 {
                delta
            } else {
                45int
            })
        },
        _ => 0int,
    }
}

fn same_canonical(a: &str, b: &str) -> (r: bool)
    ensures
        r == (canonical(a@) == canonical(b@)),
{
    let x = chars_of(canonicalize(a).as_str());
    let y = chars_of(canonicalize(b).as_str());
    chars_equal(x.as_slice(), y.as_slice())
}

/// Scores a search result: matching track and artist names count most, a
/// matching album less, and a duration within two seconds adds a little;
/// every second of difference, up to 45, takes one point off.
pub fn score_search_match(signature: &LyricsSignature, record: &ApiLyricsRecord) -> (r: i64)
    ensures
        r == search_score(*signature, *record),
{
    let mut score: i64 = 0;
    if same_canonical(record.track_name.as_str(), signature.track_name.as_str()) {
        score = score + 120;
    }
    if same_canonical(record.artist_name.as_str(), signature.artist_name.as_str()) {
        score = score + 120;
    }
    let record_album: &str = match &record.album_name {
        Some(a) => a.as_str(),
        None => "",
    };
    proof {
        reveal_strlit("");
    }
    let album = chars_of(signature.album_name.as_str());
    let (a, b) = trim_bounds(album.as_slice(), 0, album.len());
    assert(album@.subrange(0, album@.len() as int) =~= album@);
    if a < b && same_canonical(record_album, signature.album_name.as_str()) {
        score = score + 40;
    }
    match (signature.duration_seconds, record.duration_seconds) {
        (Some(expected), Some(actual)) => {
            let delta = if actual >= expected {
                actual - expected
            } else {
                expected - actual
            };
            if delta <= 2 {
                score = score + 30;
            }
            let penalty: i64 = if delta < 45 {
                delta as i64
            } else {
                45
            };
            score = score - penalty;
        },
        _ => {},
    }
    score
}

/// Whether a search result carries synced lyrics that are not blank.
pub open spec fn has_synced_lyrics(r: ApiLyricsRecord) -> bool {
    r.synced_lyrics matches Some(t) && trim(t@).len() > 0
}

/// The best search result: among those with synced lyrics, one with the
/// highest score, the last of them where several tie.
pub open spec fn is_best_match(s: LyricsSignature, records: Seq<ApiLyricsRecord>, i: int) -> bool {
    &&& 0 <= i < records.len()
    &&& has_synced_lyrics(records[i])
    &&& forall|j: int|
        0 <= j < records.len() && has_synced_lyrics(#[trigger] records[j]) ==> search_score(
            s,
            records[j],
        ) <= search_score(s, records[i])
    &&& forall|j: int|
        i < j < records.len() && has_synced_lyrics(#[trigger] records[j]) ==> search_score(
            s,
            records[j],
        ) < search_score(s, records[i])
}

fn synced_lyrics_present(record: &ApiLyricsRecord) -> (r: bool)
    ensures
        r == has_synced_lyrics(*record),
{
    match &record.synced_lyrics {
        Some(t) => {
            let v = chars_of(t.as_str());
            let (a, b) = trim_bounds(v.as_slice(), 0, v.len());
            assert(v@.subrange(0, v@.len() as int) =~= v@);
            a < b
        },
        None => false,
    }
}

/// Picks the search result to take lyrics from: the best-scoring one that
/// has synced lyrics; `None` when none has.
pub fn best_search_match(signature: &LyricsSignature, records: &Vec<ApiLyricsRecord>) -> (r:
    Option<usize>)
    ensures
        match r {
            Some(i) => is_best_match(*signature, records@, i as int),
            None => forall|j: int| 0 <= j < records@.len() ==> !has_synced_lyrics(#[trigger] records@[j]),
        },
{
    let mut best: Option<usize> = None;
    let mut best_score: i64 = 0;
    let mut i: usize = 0;
    while i < records.len()
        invariant
            i <= records@.len(),
            match best {
                Some(b) => b < i && best_score == search_score(*signature, records@[b as int])
                    && has_synced_lyrics(records@[b as int]) && (forall|j: int|
                    0 <= j < i && has_synced_lyrics(#[trigger] records@[j]) ==> search_score(
                        *signature,
                        records@[j],
                    ) <= best_score) && (forall|j: int|
                    b < j < i && has_synced_lyrics(#[trigger] records@[j]) ==> search_score(
                        *signature,
                        records@[j],
                    ) < best_score),
                None => forall|j: int| 0 <= j < i ==> !has_synced_lyrics(#[trigger] records@[j]),
            },
        decreases records@.len() - i,
    {
        if synced_lyrics_present(&records[i]) {
            let score = score_search_match(signature, &records[i]);
            let take = match best {
                Some(_) => score >= best_score,
                None => true,
            };
            if take {
                best = Some(i);
                best_score = score;
            }
        }
        i = i + 1;
    }
    best
}

} // verus!
