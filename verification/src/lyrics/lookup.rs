//! Lookup of lyrics: first the cache, then lrclib.net. The network and the
//! cache files are the caller's; here are the decisions between them and the
//! requests to make.
use vstd::prelude::*;

use super::lrc::{lines_view, synced_lines_value, parse_synced_lyrics, LyricLine, SyncedLyrics};
use super::signature::{
    best_search_match, has_synced_lyrics, is_best_match, ApiLyricsRecord, LyricsSignature,
};
use crate::text::{chars_of, decimal_string, decimal_text, push_str, trim, trim_bounds};
use vstd::utf8::encode_utf8;

verus! {

/// The lrclib.net API that lyrics come from.
pub const LRCLIB_BASE: &'static str = "https://lrclib.net";

// ---------------------------------------------------------------------------
// Query strings
// ---------------------------------------------------------------------------

/// Bytes that `application/x-www-form-urlencoded` leaves as they are.
pub open spec fn form_unchanged(b: u8) -> bool {
    b == 42 || b == 45 || b == 46 || (48 <= b <= 57) || (65 <= b <= 90) || b == 95 || (97 <= b
        <= 122)
}

pub open spec fn hex_digit_upper(d: u8) -> char {
    if d < 10 {
        (d + 48) as char
    } else {
        (d + 55) as char
    }
}

/// The form encoding of one byte: kept, `+` for a space, else `%XX`.
pub open spec fn form_byte(b: u8) -> Seq<char> {
    if form_unchanged(b) {
        seq![b as char]
    } else if b == 32 {
        seq!['+']
    } else {
        seq!['%', hex_digit_upper(b / 16), hex_digit_upper(b % 16)]
    }
}

/// The form encoding of a byte string.
pub open spec fn form_bytes(bytes: Seq<u8>) -> Seq<char>
    decreases bytes.len(),
{
    if bytes.len() == 0 {
        seq![]
    } else {
        form_byte(bytes[0]) + form_bytes(bytes.drop_first())
    }
}

/// One `name=value` pair of a query string, each side form-encoded as UTF-8.
pub open spec fn form_pair(pair: (Seq<char>, Seq<char>)) -> Seq<char> {
    form_bytes(encode_utf8(pair.0)) + seq!['='] + form_bytes(encode_utf8(pair.1))
}

/// The query string of the pairs, joined by `&`.
pub open spec fn form_query(pairs: Seq<(Seq<char>, Seq<char>)>) -> Seq<char>
    decreases pairs.len(),
{
    if pairs.len() == 0 {
        seq![]
    } else if pairs.len() == 1 {
        form_pair(pairs[0])
    } else {
        form_query(pairs.drop_last()) + seq!['&'] + form_pair(pairs.last())
    }
}

pub open spec fn pairs_view(pairs: Seq<(String, String)>) -> Seq<(Seq<char>, Seq<char>)> {
    pairs.map_values(|p: (String, String)| (p.0@, p.1@))
}

/// Calls `form_urlencoded::Serializer::new`, `extend_pairs` and `finish`
/// (through `url::form_urlencoded`) on the pairs. By that crate's source, each
/// pair becomes `name=value`, both sides percent-encoded from their UTF-8
/// bytes (`*-._`, digits and ASCII letters kept, a space as `+`, any other
/// byte as `%XX` in upper case), pairs joined by `&`.
#[verifier::external_body]
fn form_urlencode(pairs: &Vec<(String, String)>) -> (r: String)
    ensures
        r@ == form_query(pairs_view(pairs@)),
{
    url::form_urlencoded::Serializer::new(String::new()).extend_pairs(pairs.iter()).finish()
}

/// The URL of an lrclib.net endpoint with the given query parameters.
pub open spec fn lrclib_url(endpoint: Seq<char>, pairs: Seq<(Seq<char>, Seq<char>)>) -> Seq<char> {
    let query = form_query(pairs);
    if query.len() == 0 {
        LRCLIB_BASE@ + endpoint
    } else {
        LRCLIB_BASE@ + endpoint + seq!['?'] + query
    }
}

/// The URL of an lrclib.net endpoint with the given query parameters.
pub fn build_url(endpoint: &str, params: &Vec<(String, String)>) -> (r: String)
    ensures
        r@ == lrclib_url(endpoint@, pairs_view(params@)),
{
    let query = form_urlencode(params);
    let mut address = LRCLIB_BASE.to_owned();
    push_str(&mut address, endpoint);
    if query.as_str().is_empty() {
        address
    } else {
        address.push('?');
        push_str(&mut address, query.as_str());
        address
    }
}

// ---------------------------------------------------------------------------
// Requests
// ---------------------------------------------------------------------------

/// A request to lrclib.net; the `get` endpoints name the duration in seconds.
#[derive(Clone, Copy, Debug, PartialEq, Eq, Structural)]
pub enum LyricsRequest {
    GetCached(u64),
    Get(u64),
    Search,
}

/// What a request brought back: a record (`/api/get-cached`, `/api/get`) or a
/// list of them (`/api/search`); `None` when the request or the reading of
/// its answer failed.
pub enum LyricsResponse {
    Record(Option<ApiLyricsRecord>),
    Records(Option<Vec<ApiLyricsRecord>>),
}

/// Where a lookup on lrclib.net stands after an answer.
pub enum FetchProgress {
    Next(LyricsRequest),
    Done(Option<SyncedLyrics>),
}

/// The request a lookup starts with: the exact `get` endpoints when the
/// duration and the album are known, else a search.
pub open spec fn first_request(s: LyricsSignature) -> LyricsRequest {
    match s.duration_seconds {
        Some(d) => if trim(s.album_name@).len() > 0 {
            LyricsRequest::GetCached(d)
        } else {
            LyricsRequest::Search
        },
        None => LyricsRequest::Search,
    }
}

/// The query parameters of a request.
pub open spec fn request_params(s: LyricsSignature, req: LyricsRequest) -> Seq<
    (Seq<char>, Seq<char>),
> {
    match req {
        LyricsRequest::GetCached(d) | LyricsRequest::Get(d) => seq![
            ("track_name"@, s.track_name@),
            ("artist_name"@, s.artist_name@),
            ("album_name"@, s.album_name@),
            ("duration"@, decimal_text(d as nat)),
        ],
        LyricsRequest::Search => if trim(s.album_name@).len() > 0 {
            seq![
                ("track_name"@, s.track_name@),
                ("artist_name"@, s.artist_name@),
                ("album_name"@, s.album_name@),
            ]
        } else {
            seq![("track_name"@, s.track_name@), ("artist_name"@, s.artist_name@)]
        },
    }
}

pub open spec fn request_endpoint(req: LyricsRequest) -> Seq<char> {
    match req {
        LyricsRequest::GetCached(_) => "/api/get-cached"@,
        LyricsRequest::Get(_) => "/api/get"@,
        LyricsRequest::Search => "/api/search"@,
    }
}

fn album_known(signature: &LyricsSignature) -> (r: bool)
    ensures
        r == (trim(signature.album_name@).len() > 0),
{
    let v = chars_of(signature.album_name.as_str());
    let (a, b) = trim_bounds(v.as_slice(), 0, v.len());
    assert(v@.subrange(0, v@.len() as int) =~= v@);
    a < b
}

/// The request a lookup of the signature starts with.
pub fn first_lyrics_request(signature: &LyricsSignature) -> (r: LyricsRequest)
    ensures
        r == first_request(*signature),
{
    match signature.duration_seconds {
        Some(d) => if album_known(signature) {
            LyricsRequest::GetCached(d)
        } else {
            LyricsRequest::Search
        },
        None => LyricsRequest::Search,
    }
}

/// The URL to fetch for a request about the signature.
pub fn lyrics_request_url(signature: &LyricsSignature, request: LyricsRequest) -> (r: String)
    ensures
        r@ == lrclib_url(request_endpoint(request), request_params(*signature, request)),
{
    let mut params: Vec<(String, String)> = Vec::new();
    params.push(("track_name".to_owned(), signature.track_name.clone()));
    params.push(("artist_name".to_owned(), signature.artist_name.clone()));
    let endpoint = match request {
        LyricsRequest::GetCached(d) => {
            params.push(("album_name".to_owned(), signature.album_name.clone()));
            params.push(("duration".to_owned(), decimal_string(d)));
            "/api/get-cached"
        },
        LyricsRequest::Get(d) => {
            params.push(("album_name".to_owned(), signature.album_name.clone()));
            params.push(("duration".to_owned(), decimal_string(d)));
            "/api/get"
        },
        LyricsRequest::Search => {
            if album_known(signature) {
                params.push(("album_name".to_owned(), signature.album_name.clone()));
            }
            "/api/search"
        },
    };
    assert(pairs_view(params@) =~= request_params(*signature, request));
    build_url(endpoint, &params)
}

/// The synced lyrics of a record, when it has any that read as LRC.
pub open spec fn record_lyrics(r: ApiLyricsRecord) -> Option<Seq<(u64, Seq<char>)>> {
    synced_lines_value(
        match r.synced_lyrics {
            Some(t) => Some(t@),
            None => None,
        },
    )
}

fn lyrics_of_record(record: &ApiLyricsRecord) -> (r: Option<SyncedLyrics>)
    ensures
        match record_lyrics(*record) {
            Some(l) => r matches Some(s) && lines_view(s.lines@) == l,
            None => r is None,
        },
{
    match &record.synced_lyrics {
        Some(t) => parse_synced_lyrics(Some(t.as_str())),
        None => parse_synced_lyrics(None),
    }
}

/// What a lookup does after the answer to one of its requests: an exact
/// `get` record with readable lyrics ends it; a failed `get-cached` is
/// retried as `get`; otherwise the lookup falls back to a search, whose best
/// match gives the lyrics or nothing.
pub fn fetch_synced_lyrics(
    signature: &LyricsSignature,
    request: LyricsRequest,
    response: LyricsResponse,
) -> (r: FetchProgress)
    ensures
        match request {
            LyricsRequest::GetCached(d) => match response {
                LyricsResponse::Record(Some(rec)) => match record_lyrics(rec) {
                    Some(l) => r matches FetchProgress::Done(Some(s)) && lines_view(s.lines@) == l,
                    None => r == FetchProgress::Next(LyricsRequest::Search),
                },
                _ => r == FetchProgress::Next(LyricsRequest::Get(d)),
            },
            LyricsRequest::Get(_) => match response {
                LyricsResponse::Record(Some(rec)) => match record_lyrics(rec) {
                    Some(l) => r matches FetchProgress::Done(Some(s)) && lines_view(s.lines@) == l,
                    None => r == FetchProgress::Next(LyricsRequest::Search),
                },
                _ => r == FetchProgress::Next(LyricsRequest::Search),
            },
            LyricsRequest::Search => match response {
                LyricsResponse::Records(Some(records)) => {
                    &&& (forall|j: int|
                        0 <= j < records@.len() ==> !has_synced_lyrics(#[trigger] records@[j]))
                        ==> r == FetchProgress::Done(None)
                    &&& r matches FetchProgress::Done(found)
                    &&& (found is Some || (forall|j: int|
                        0 <= j < records@.len() ==> !has_synced_lyrics(#[trigger] records@[j]))
                        || exists|i: int|
                        is_best_match(*signature, records@, i) && record_lyrics(records@[i]) is None)
                    &&& (found matches Some(s) ==> exists|i: int|
                        is_best_match(*signature, records@, i) && record_lyrics(records@[i])
                            == Some(lines_view(s.lines@)))
                },
                _ => r == FetchProgress::Done(None),
            },
        },
{
    match request {
        LyricsRequest::GetCached(d) => match response {
            LyricsResponse::Record(Some(record)) => match lyrics_of_record(&record) {
                Some(lyrics) => FetchProgress::Done(Some(lyrics)),
                None => FetchProgress::Next(LyricsRequest::Search),
            },
            _ => FetchProgress::Next(LyricsRequest::Get(d)),
        },
        LyricsRequest::Get(_) => match response {
            LyricsResponse::Record(Some(record)) => match lyrics_of_record(&record) {
                Some(lyrics) => FetchProgress::Done(Some(lyrics)),
                None => FetchProgress::Next(LyricsRequest::Search),
            },
            _ => FetchProgress::Next(LyricsRequest::Search),
        },
        LyricsRequest::Search => match response {
            LyricsResponse::Records(Some(records)) => match best_search_match(
                signature,
                &records,
            ) {
                Some(i) => FetchProgress::Done(lyrics_of_record(&records[i])),
                None => FetchProgress::Done(None),
            },
            _ => FetchProgress::Done(None),
        },
    }
}

// ---------------------------------------------------------------------------
// The cache
// ---------------------------------------------------------------------------

/// What the cache holds for a track: its lyrics, or that there are none.
pub struct LyricsCacheEntry {
    pub cache_key: String,
    pub missing: bool,
    pub lines: Vec<LyricLine>,
}

pub enum LyricsLookupResult {
    Found(SyncedLyrics),
    Missing,
    NotLoaded,
}

/// Where a lookup stands before any request: finished from the cache, or
/// waiting for lrclib.net.
pub enum LookupStep {
    Finished(LyricsLookupResult),
    Fetch(LyricsRequest),
}

/// What a cache entry says of a track: nothing when it is another
/// track's; otherwise that the track has no lyrics (`Some(None)`) or its
/// lines.
pub open spec fn cache_answer(signature: LyricsSignature, cached: Option<LyricsCacheEntry>) -> Option<
    Option<Seq<(u64, Seq<char>)>>,
> {
    match cached {
        Some(e) => if e.cache_key@ == signature.cache_key@ {
            if e.missing {
                Some(None)
            } else {
                Some(Some(lines_view(e.lines@)))
            }
        } else {
            None
        },
        None => None,
    }
}

/// The entry that a finished lookup stores: under the track's key, the
/// lines fetched, or a mark that there are none.
pub open spec fn stored_entry(
    signature: LyricsSignature,
    fetched: Option<Seq<(u64, Seq<char>)>>,
    e: LyricsCacheEntry,
) -> bool {
    &&& e.cache_key@ == signature.cache_key@
    &&& e.missing == (fetched is None)
    &&& fetched matches Some(lines) ==> lines_view(e.lines@) == lines
}

/// The entry a lookup stores, read back for the same track, answers the
/// next lookup as the network did: with the same lines, or as missing.
pub proof fn law_cached_lookup_answers_as_fetched(
    signature: LyricsSignature,
    fetched: Option<Seq<(u64, Seq<char>)>>,
    e: LyricsCacheEntry,
)
    requires
        stored_entry(signature, fetched, e),
    ensures
        cache_answer(signature, Some(e)) == Some(fetched),
{
}

/// Decides a lookup from what the cache holds under the signature's file: an
/// entry for this very key answers it; otherwise the network is asked when
/// allowed, starting with `first_lyrics_request`.
pub fn lookup_synced_lyrics(
    signature: &LyricsSignature,
    allow_network: bool,
    cached: Option<LyricsCacheEntry>,
) -> (r: LookupStep)
    ensures
        match cache_answer(*signature, cached) {
            Some(None) => r matches LookupStep::Finished(LyricsLookupResult::Missing),
            Some(Some(lines)) => r matches LookupStep::Finished(LyricsLookupResult::Found(l))
                && lines_view(l.lines@) == lines,
            None => if allow_network {
                r matches LookupStep::Fetch(req) && req == first_request(*signature)
            } else {
                r matches LookupStep::Finished(LyricsLookupResult::NotLoaded)
            },
        },
{
    if let Some(entry) = cached {
        if entry.cache_key == signature.cache_key {
            return if entry.missing {
                LookupStep::Finished(LyricsLookupResult::Missing)
            } else {
                LookupStep::Finished(LyricsLookupResult::Found(SyncedLyrics { lines: entry.lines }))
            };
        }
    }
    if !allow_network {
        return LookupStep::Finished(LyricsLookupResult::NotLoaded);
    }
    LookupStep::Fetch(first_lyrics_request(signature))
}

fn copy_lines(lines: &Vec<LyricLine>) -> (r: Vec<LyricLine>)
    ensures
        lines_view(r@) == lines_view(lines@),
{
    let mut out: Vec<LyricLine> = Vec::new();
    let mut i: usize = 0;
    while i < lines.len()
        invariant
            i <= lines@.len(),
            lines_view(out@) == lines_view(lines@).take(i as int),
        decreases lines@.len() - i,
    {
        let line = LyricLine {
            at_microseconds: lines[i].at_microseconds,
            text: lines[i].text.clone(),
        };
        let ghost prev = out@;
        out.push(line);
        assert(lines_view(out@) =~= lines_view(prev).push(lines@[i as int]@));
        assert(lines_view(lines@).take(i + 1) =~= lines_view(lines@).take(i as int).push(
            lines@[i as int]@,
        ));
        i = i + 1;
    }
    assert(lines_view(lines@).take(i as int) =~= lines_view(lines@));
    out
}

/// Ends a lookup with what lrclib.net gave: the lyrics found, or that there
/// are none, together with the cache entry to write for the signature.
pub fn finish_lyrics_lookup(signature: &LyricsSignature, fetched: Option<SyncedLyrics>) -> (r: (
    LyricsCacheEntry,
    LyricsLookupResult,
))
    ensures
        stored_entry(
            *signature,
            match fetched {
                Some(l) => Some(lines_view(l.lines@)),
                None => None,
            },
            r.0,
        ),
        r.0.missing ==> r.0.lines@.len() == 0,
        match fetched {
            Some(l) => r.1 matches LyricsLookupResult::Found(f) && f.lines@ == l.lines@,
            None => r.1 is Missing,
        },
{
    match fetched {
        Some(lyrics) => {
            let entry = LyricsCacheEntry {
                cache_key: signature.cache_key.clone(),
                missing: false,
                lines: copy_lines(&lyrics.lines),
            };
            (entry, LyricsLookupResult::Found(lyrics))
        },
        None => {
            let entry = LyricsCacheEntry {
                cache_key: signature.cache_key.clone(),
                missing: true,
                lines: Vec::new(),
            };
            (entry, LyricsLookupResult::Missing)
        },
    }
}

} // verus!
