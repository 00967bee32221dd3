//! Where artwork comes from, which of it is cached, and which cached files
//! are removed to keep the cache within its limits.
use vstd::prelude::*;
use crate::text::{chars_equal_str, chars_of, sat_add};

verus! {

/// The scheme of `url` as `url::Url::parse` reads it, lower case, or none
/// when it does not parse as an absolute URL.
pub uninterp spec fn parsed_url_scheme(url: Seq<char>) -> Option<Seq<char>>;

pub open spec fn optional_text(o: Option<String>) -> Option<Seq<char>> {
    match o {
        Some(s) => Some(s@),
        None => None,
    }
}

/// Calls `url::Url::parse` and, when it succeeds, `Url::scheme`. The
/// contract names the result only: it is the scheme that the URL standard
/// parser reads, which takes pages to state.
#[verifier::external_body]
fn url_scheme(url: &str) -> (r: Option<String>)
    ensures
        optional_text(r) == parsed_url_scheme(url@),
{
    match url::Url::parse(url) {
        Ok(parsed) => Some(parsed.scheme().to_string()),
        Err(_) => None,
    }
}

/// Where the bytes of a piece of artwork come from.
#[derive(Clone, Copy, Debug, PartialEq, Eq, Structural)]
pub enum ArtworkSource {
    /// A local file, by a `file:` URL.
    File,
    /// The web, by an `http:` or `https:` URL.
    Web,
}

/// The source a URL's scheme names, if the artwork can be had from it.
pub open spec fn source_of_scheme(scheme: Option<Seq<char>>) -> Option<ArtworkSource> {
    match scheme {
        Some(s) => if s == "file"@ {
            Some(ArtworkSource::File)
        } else if s == "http"@ || s == "https"@ {
            Some(ArtworkSource::Web)
        } else {
            None
        },
        None => None,
    }
}

/// The source of the artwork at `scheme`, as the library reads it from the
/// scheme that the URL parser gave.
pub fn source_for_scheme(scheme: Option<&str>) -> (r: Option<ArtworkSource>)
    ensures
        r == source_of_scheme(
            match scheme {
                Some(s) => Some(s@),
                None => None,
            },
        ),
{
    match scheme {
        Some(s) => {
            let v = chars_of(s);
            if chars_equal_str(v.as_slice(), "file") {
                Some(ArtworkSource::File)
            } else if chars_equal_str(v.as_slice(), "http") || chars_equal_str(v.as_slice(), "https") {
                Some(ArtworkSource::Web)
            } else {
                None
            }
        },
        None => None,
    }
}

/// Where the artwork at `url` comes from: a file, the web, or nowhere that
/// the overlay reads from.
pub fn artwork_source(url: &str) -> (r: Option<ArtworkSource>)
    ensures
        r == source_of_scheme(parsed_url_scheme(url@)),
{
    let scheme = url_scheme(url);
    match &scheme {
        Some(s) => source_for_scheme(Some(s.as_str())),
        None => source_for_scheme(None),
    }
}

/// Only artwork from the web is cached.
pub fn is_cacheable_url(url: &str) -> (r: bool)
    ensures
        r == (source_of_scheme(parsed_url_scheme(url@)) == Some(ArtworkSource::Web)),
{
    match artwork_source(url) {
        Some(ArtworkSource::Web) => true,
        _ => false,
    }
}

/// How old a cached file may grow before it is removed: 30 days, in
/// nanoseconds.
pub const MAX_CACHE_AGE_NANOS: u64 = 2_592_000_000_000_000;

/// A file in the artwork cache: when it was last written, in nanoseconds
/// since the Unix epoch if known, and its size in bytes.
#[derive(Clone, Copy, Debug, PartialEq, Eq, Structural)]
pub struct CacheFile {
    pub modified_nanos: Option<u64>,
    pub size: u64,
}

/// A file is stale when it was written more than the maximum age before
/// `now`; one with no time, or a time after `now`, is not.
pub open spec fn is_stale(f: CacheFile, now: u64) -> bool {
    match f.modified_nanos {
        Some(m) => now >= m && now - m > MAX_CACHE_AGE_NANOS,
        None => false,
    }
}

/// The files that are not stale, with their positions, in order.
pub open spec fn fresh_files(files: Seq<CacheFile>, now: u64, n: nat) -> Seq<(int, CacheFile)>
    decreases n,
{
    if n == 0 {
        Seq::empty()
    } else {
        let before = fresh_files(files, now, (n - 1) as nat);
        if is_stale(files[n - 1], now) {
            before
        } else {
            before.push((n - 1, files[n - 1]))
        }
    }
}

/// The positions of the stale files, in order.
pub open spec fn stale_files(files: Seq<CacheFile>, now: u64, n: nat) -> Seq<int>
    decreases n,
{
    if n == 0 {
        Seq::empty()
    } else {
        let before = stale_files(files, now, (n - 1) as nat);
        if is_stale(files[n - 1], now) {
            before.push(n - 1)
        } else {
            before
        }
    }
}

/// The sizes added up in order, saturating at `u64::MAX`.
pub open spec fn total_size(entries: Seq<(int, CacheFile)>) -> nat
    decreases entries.len(),
{
    if entries.len() == 0 {
        0
    } else {
        sat_add(total_size(entries.drop_last()), entries.last().1.size as nat)
    }
}

/// Times ordered as `Option` orders them: no time first.
pub open spec fn time_le(a: Option<u64>, b: Option<u64>) -> bool {
    match (a, b) {
        (None, _) => true,
        (Some(_), None) => false,
        (Some(x), Some(y)) => x <= y,
    }
}

/// Puts `e` among entries already in order, after every entry whose time
/// is not later.
pub open spec fn insert_by_age(sorted: Seq<(int, CacheFile)>, e: (int, CacheFile)) -> Seq<(int, CacheFile)>
    decreases sorted.len(),
{
    if sorted.len() == 0 {
        seq![e]
    } else if time_le(sorted.last().1.modified_nanos, e.1.modified_nanos) {
        sorted.push(e)
    } else {
        insert_by_age(sorted.drop_last(), e).push(sorted.last())
    }
}

/// The stable sort by time that `slice::sort_by_key` makes: oldest first.
pub open spec fn sort_by_age(s: Seq<(int, CacheFile)>) -> Seq<(int, CacheFile)>
    decreases s.len(),
{
    if s.len() == 0 {
        s
    } else {
        insert_by_age(sort_by_age(s.drop_last()), s.last())
    }
}

/// `a - b`, stopping at zero.
pub open spec fn sat_sub(a: nat, b: nat) -> nat {
    if a >= b {
        (a - b) as nat
    } else {
        0
    }
}

/// The positions of the files removed, oldest first, while there are more
/// than `max_files` or their total is over `max_bytes`.
pub open spec fn evicted(sorted: Seq<(int, CacheFile)>, total: nat, max_files: nat, max_bytes: nat) -> Seq<int>
    decreases sorted.len(),
{
    if sorted.len() > 0 && (sorted.len() > max_files || total > max_bytes) {
        seq![sorted[0].0] + evicted(
            sorted.drop_first(),
            sat_sub(total, sorted[0].1.size as nat),
            max_files,
            max_bytes,
        )
    } else {
        Seq::empty()
    }
}

/// The files that trimming removes: the stale ones, then the oldest of the
/// others while the cache is over either limit.
pub open spec fn trim_plan(files: Seq<CacheFile>, now: u64, max_files: nat, max_bytes: nat) -> Seq<int> {
    let fresh = fresh_files(files, now, files.len());
    stale_files(files, now, files.len()) + evicted(
        sort_by_age(fresh),
        total_size(fresh),
        max_files,
        max_bytes,
    )
}

/// The position at which `insert_by_age` puts `e`.
pub open spec fn age_insert_position(s: Seq<(int, CacheFile)>, e: (int, CacheFile)) -> int
    decreases s.len(),
{
    if s.len() == 0 {
        0
    } else if time_le(s.last().1.modified_nanos, e.1.modified_nanos) {
        s.len() as int
    } else {
        age_insert_position(s.drop_last(), e)
    }
}

proof fn lemma_age_insert_position(s: Seq<(int, CacheFile)>, e: (int, CacheFile))
    ensures
        0 <= age_insert_position(s, e) <= s.len(),
        insert_by_age(s, e) == s.insert(age_insert_position(s, e), e),
    decreases s.len(),
{
    if s.len() > 0 && !time_le(s.last().1.modified_nanos, e.1.modified_nanos) {
        lemma_age_insert_position(s.drop_last(), e);
        let p = age_insert_position(s, e);
        assert(s.drop_last().insert(p, e).push(s.last()) =~= s.insert(p, e));
    } else if s.len() > 0 {
        assert(s.push(e) =~= s.insert(s.len() as int, e));
    } else {
        assert(seq![e] =~= s.insert(0, e));
    }
}

pub open spec fn entry_view(e: (usize, CacheFile)) -> (int, CacheFile) {
    (e.0 as int, e.1)
}

pub open spec fn entries_view(s: Seq<(usize, CacheFile)>) -> Seq<(int, CacheFile)> {
    s.map_values(|e: (usize, CacheFile)| entry_view(e))
}

fn time_le_exec(a: Option<u64>, b: Option<u64>) -> (r: bool)
    ensures
        r == time_le(a, b),
{
    match (a, b) {
        (None, _) => true,
        (Some(_), None) => false,
        (Some(x), Some(y)) => x <= y,
    }
}

fn stale_exec(f: &CacheFile, now: u64) -> (r: bool)
    ensures
        r == is_stale(*f, now),
{
    match f.modified_nanos {
        Some(m) => now >= m && now - m > MAX_CACHE_AGE_NANOS,
        None => false,
    }
}

/// Sorts entries by time, oldest first, keeping entries of equal time in
/// their order.
fn sort_entries_by_age(entries: &Vec<(usize, CacheFile)>) -> (r: Vec<(usize, CacheFile)>)
    ensures
        entries_view(r@) == sort_by_age(entries_view(entries@)),
{
    let mut out: Vec<(usize, CacheFile)> = Vec::new();
    let mut i: usize = 0;
    let ghost src = entries_view(entries@);
    while i < entries.len()
        invariant
            i <= entries@.len(),
            src == entries_view(entries@),
            entries_view(out@) == sort_by_age(src.take(i as int)),
        decreases entries@.len() - i,
    {
        let e = entries[i];
        let ghost sorted = entries_view(out@);
        let mut j = out.len();
        assert(sorted.take(j as int) =~= sorted);
        while j > 0 && !time_le_exec(out[j - 1].1.modified_nanos, e.1.modified_nanos)
            invariant
                j <= out@.len(),
                sorted == entries_view(out@),
                age_insert_position(sorted, entry_view(e)) == age_insert_position(
                    sorted.take(j as int),
                    entry_view(e),
                ),
            decreases j,
        {
            assert(sorted.take(j as int).drop_last() =~= sorted.take(j - 1));
            j = j - 1;
        }
        proof {
            if j > 0 {
                assert(sorted.take(j as int).last() == sorted[j - 1]);
            }
            lemma_age_insert_position(sorted, entry_view(e));
            assert(src.take(i + 1).drop_last() =~= src.take(i as int));
            assert(src.take(i + 1).last() == entry_view(e));
        }
        out.insert(j, e);
        assert(entries_view(out@) =~= sorted.insert(j as int, entry_view(e)));
        i = i + 1;
    }
    assert(src.take(i as int) =~= src);
    out
}

/// The files to remove from the artwork cache, by their positions in
/// `files`: those older than 30 days at `now` (nanoseconds since the Unix
/// epoch), then, oldest first, as many of the others as it takes to keep
/// at most `max_files` files and `max_bytes` bytes.
pub fn trim_cache(files: &Vec<CacheFile>, now: u64, max_files: usize, max_bytes: u64) -> (r: Vec<usize>)
    ensures
        r@.map_values(|i: usize| i as int) == trim_plan(files@, now, max_files as nat, max_bytes as nat),
{
    let mut stale: Vec<usize> = Vec::new();
    let mut entries: Vec<(usize, CacheFile)> = Vec::new();
    let mut total_bytes: u64 = 0;
    let mut i: usize = 0;
    while i < files.len()
        invariant
            i <= files@.len(),
            stale@.map_values(|k: usize| k as int) == stale_files(files@, now, i as nat),
            entries_view(entries@) == fresh_files(files@, now, i as nat),
            total_bytes == total_size(fresh_files(files@, now, i as nat)),
        decreases files@.len() - i,
    {
        let f = files[i];
        if stale_exec(&f, now) {
            stale.push(i);
            assert(stale@.map_values(|k: usize| k as int) =~= stale_files(files@, now, i as nat).push(
                i as int,
            ));
        } else {
            total_bytes = total_bytes.saturating_add(f.size);
            entries.push((i, f));
            assert(entries_view(entries@) =~= fresh_files(files@, now, i as nat).push((i as int, f)));
            assert(fresh_files(files@, now, (i + 1) as nat).drop_last() == fresh_files(
                files@,
                now,
                i as nat,
            ));
        }
        i = i + 1;
    }
    let sorted = sort_entries_by_age(&entries);
    let ghost fresh = fresh_files(files@, now, files@.len());
    let ghost all = entries_view(sorted@);
    let ghost mf = max_files as nat;
    let ghost mb = max_bytes as nat;
    let mut removed: Vec<usize> = stale;
    let ghost stale_part = removed@.map_values(|k: usize| k as int);
    let ghost sl = stale_part.len() as int;
    proof {
        assert(all.skip(0) =~= all);
        assert(removed@.map_values(|k: usize| k as int).skip(sl) =~= Seq::<int>::empty());
        assert(removed@.map_values(|k: usize| k as int).take(sl) =~= stale_part);
        assert(evicted(all, total_size(fresh), mf, mb) =~= Seq::<int>::empty() + evicted(
            all.skip(0),
            total_bytes as nat,
            mf,
            mb,
        ));
    }
    let mut first: usize = 0;
    while first < sorted.len() && (sorted.len() - first > max_files || total_bytes > max_bytes)
        invariant
            first <= sorted@.len(),
            mf == max_files as nat,
            mb == max_bytes as nat,
            all == entries_view(sorted@),
            all == sort_by_age(fresh),
            sl == stale_part.len(),
            evicted(all, total_size(fresh), mf, mb) == removed@.map_values(|k: usize| k as int).skip(sl)
                + evicted(all.skip(first as int), total_bytes as nat, mf, mb),
            removed@.map_values(|k: usize| k as int).take(sl) == stale_part,
            removed@.len() >= sl,
        decreases sorted@.len() - first,
    {
        let (index, f) = sorted[first];
        let ghost before = removed@.map_values(|k: usize| k as int);
        let ghost old_total = total_bytes;
        proof {
            assert(all.skip(first as int)[0] == entry_view(sorted@[first as int]));
            assert(all.skip(first as int).drop_first() =~= all.skip(first + 1));
        }
        removed.push(index);
        total_bytes = total_bytes.saturating_sub(f.size);
        proof {
            let after = removed@.map_values(|k: usize| k as int);
            assert(after =~= before.push(index as int));
            assert(after.skip(sl) =~= before.skip(sl).push(index as int));
            assert(after.take(sl) =~= before.take(sl));
            assert(total_bytes as nat == sat_sub(old_total as nat, f.size as nat));
            let rest = evicted(all.skip(first + 1), total_bytes as nat, mf, mb);
            assert(evicted(all.skip(first as int), old_total as nat, mf, mb) == seq![index as int]
                + rest);
            assert(before.skip(sl) + (seq![index as int] + rest) =~= after.skip(sl) + rest);
        }
        first = first + 1;
    }
    proof {
        if first < sorted@.len() {
            assert(all.skip(first as int).len() == sorted@.len() - first);
        } else {
            assert(all.skip(first as int).len() == 0);
        }
        assert(evicted(all.skip(first as int), total_bytes as nat, mf, mb) =~= Seq::<int>::empty());
        let v = removed@.map_values(|k: usize| k as int);
        assert(v =~= v.take(sl) + v.skip(sl));
    }
    removed
}

/// The total that the trimming loop holds when it stops.
pub open spec fn leftover_total(sorted: Seq<(int, CacheFile)>, total: nat, max_files: nat, max_bytes: nat) -> nat
    decreases sorted.len(),
{
    if sorted.len() > 0 && (sorted.len() > max_files || total > max_bytes) {
        leftover_total(sorted.drop_first(), sat_sub(total, sorted[0].1.size as nat), max_files, max_bytes)
    } else {
        total
    }
}

/// Eviction removes the oldest files first, a front part of the age
/// order, and stops only when what is left is within both limits or
/// nothing is left.
pub proof fn law_eviction_takes_oldest_until_within_limits(
    sorted: Seq<(int, CacheFile)>,
    total: nat,
    max_files: nat,
    max_bytes: nat,
)
    ensures
        ({
            let e = evicted(sorted, total, max_files, max_bytes);
            &&& e.len() <= sorted.len()
            &&& forall|i: int| 0 <= i < e.len() ==> #[trigger] e[i] == sorted[i].0
            &&& e.len() == sorted.len() || (sorted.len() - e.len() <= max_files && leftover_total(
                sorted,
                total,
                max_files,
                max_bytes,
            ) <= max_bytes)
        }),
    decreases sorted.len(),
{
    if sorted.len() > 0 && (sorted.len() > max_files || total > max_bytes) {
        let rest = sorted.drop_first();
        let t = sat_sub(total, sorted[0].1.size as nat);
        law_eviction_takes_oldest_until_within_limits(rest, t, max_files, max_bytes);
        let e = evicted(sorted, total, max_files, max_bytes);
        let er = evicted(rest, t, max_files, max_bytes);
        assert(e == seq![sorted[0].0] + er);
        assert forall|i: int| 0 <= i < e.len() implies #[trigger] e[i] == sorted[i].0 by {
            if i > 0 {
                assert(e[i] == er[i - 1]);
                assert(rest[i - 1] == sorted[i]);
            }
        }
    }
}

/// Cached files in age order: no file comes after a newer one.
pub open spec fn oldest_first(s: Seq<(int, CacheFile)>) -> bool {
    forall|i: int, j: int|
        0 <= i <= j < s.len() ==> time_le((#[trigger] s[i]).1.modified_nanos, (#[trigger] s[j]).1.modified_nanos)
}

proof fn lemma_age_insert_position_bounds(t: Seq<(int, CacheFile)>, x: (int, CacheFile))
    ensures
        forall|k: int|
            age_insert_position(t, x) <= k < t.len() ==> !time_le(
                (#[trigger] t[k]).1.modified_nanos,
                x.1.modified_nanos,
            ),
        age_insert_position(t, x) > 0 ==> time_le(
            t[age_insert_position(t, x) - 1].1.modified_nanos,
            x.1.modified_nanos,
        ),
    decreases t.len(),
{
    lemma_age_insert_position(t, x);
    if t.len() > 0 && !time_le(t.last().1.modified_nanos, x.1.modified_nanos) {
        lemma_age_insert_position_bounds(t.drop_last(), x);
        lemma_age_insert_position(t.drop_last(), x);
        let p = age_insert_position(t, x);
        if p > 0 {
            assert(t[p - 1] == t.drop_last()[p - 1]);
        }
        assert forall|k: int| age_insert_position(t, x) <= k < t.len() implies !time_le(
            (#[trigger] t[k]).1.modified_nanos,
            x.1.modified_nanos,
        ) by {
            if k < t.len() - 1 {
                assert(t[k] == t.drop_last()[k]);
            }
        }
    }
}

/// Sorting by age puts the files oldest first, and keeps every file.
pub proof fn law_sort_by_age_oldest_first(s: Seq<(int, CacheFile)>)
    ensures
        oldest_first(sort_by_age(s)),
        sort_by_age(s).to_multiset() == s.to_multiset(),
    decreases s.len(),
{
    broadcast use vstd::seq_lib::to_multiset_insert, vstd::seq_lib::to_multiset_build;

    if s.len() == 0 {
        return ;
    }
    let d = s.drop_last();
    let x = s.last();
    let t = sort_by_age(d);
    law_sort_by_age_oldest_first(d);
    lemma_age_insert_position(t, x);
    lemma_age_insert_position_bounds(t, x);
    let p = age_insert_position(t, x);
    let r = sort_by_age(s);
    assert(r == t.insert(p, x));
    t.insert_ensures(p, x);
    assert(s =~= d.push(x));
    assert forall|i: int, j: int| 0 <= i <= j < r.len() implies time_le(
        (#[trigger] r[i]).1.modified_nanos,
        (#[trigger] r[j]).1.modified_nanos,
    ) by {
        if i < p {
            if j < p {
                assert(r[j] == t[j]);
            } else if j == p {
                assert(time_le(t[i].1.modified_nanos, t[p - 1].1.modified_nanos));
            } else {
                assert(r[j] == t[j - 1]);
            }
        } else if i == p {
            if j > p {
                assert(r[j] == t[j - 1]);
            }
        } else {
            assert(r[i] == t[i - 1]);
            assert(r[j] == t[j - 1]);
        }
    }
}

} // verus!
