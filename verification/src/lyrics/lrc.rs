//! LRC text: timestamp tags, lines in time order, and the line for a
//! playback position.
use vstd::prelude::*;

use crate::text::{
    all_digits, chars_of, decimal_value, find_char, first_index_of, is_ascii_digit,
    lemma_first_index_of, lemma_trim_start_shrinks, parse_u64_range, parse_u64_spec, pow10,
    sat_add, sat_mul, saturating_add, saturating_mul, split_lines, string_of, strip_cr, sub_chars,
    trim, trim_bounds, trim_start, trim_start_index,
};

verus! {

#[derive(Clone, Debug)]
pub struct LyricLine {
    pub at_microseconds: u64,
    pub text: String,
}

#[derive(Clone, Debug)]
pub struct SyncedLyrics {
    pub lines: Vec<LyricLine>,
}

impl View for LyricLine {
    type V = (u64, Seq<char>);

    open spec fn view(&self) -> (u64, Seq<char>) {
        (self.at_microseconds, self.text@)
    }
}

pub open spec fn lines_view(v: Seq<LyricLine>) -> Seq<(u64, Seq<char>)> {
    v.map_values(|l: LyricLine| l@)
}

// ---------------------------------------------------------------------------
// LRC timestamps
// ---------------------------------------------------------------------------

/// The digits among `s`, at most the first six of them.
pub open spec fn fraction_digits(s: Seq<char>) -> Seq<char>
    decreases s.len(),
{
    if s.len() == 0 {
        s
    } else {
        let d = fraction_digits(s.drop_last());
        if d.len() < 6 && is_ascii_digit(s.last()) {
            d.push(s.last())
        } else {
            d
        }
    }
}

/// Microseconds of a fraction of a second written with the given digits.
pub open spec fn fraction_micros(digits: Seq<char>) -> nat {
    if digits.len() == 0 {
        0
    } else {
        decimal_value(digits) * pow10((6 - digits.len()) as nat)
    }
}

/// The seconds and the fraction, in microseconds, of the text after the
/// minutes of an LRC timestamp.
pub open spec fn lrc_seconds_part(rest: Seq<char>) -> Option<(u64, nat)> {
    match first_index_of(rest, '.') {
        Some(d) => match parse_u64_spec(trim(rest.take(d))) {
            Some(seconds) => Some((seconds, fraction_micros(fraction_digits(rest.skip(d + 1))))),
            None => None,
        },
        None => match parse_u64_spec(trim(rest)) {
            Some(seconds) => Some((seconds, 0)),
            None => None,
        },
    }
}

/// What an LRC tag `mm:ss.fff` denotes, in microseconds.
pub open spec fn lrc_timestamp_value(value: Seq<char>) -> Option<u64> {
    let token = trim(value);
    if token.len() == 0 {
        None
    } else {
        match first_index_of(token, ':') {
            None => None,
            Some(k) => match parse_u64_spec(trim(token.take(k))) {
                None => None,
                Some(minutes) => match lrc_seconds_part(token.skip(k + 1)) {
                    None => None,
                    Some((seconds, fraction)) => if seconds >= 60 {
                        None
                    } else {
                        Some(
                            sat_add(
                                sat_mul(sat_add(sat_mul(minutes as nat, 60), seconds as nat), 1_000_000),
                                fraction,
                            ) as u64,
                        )
                    },
                },
            },
        }
    }
}

proof fn lemma_fraction_digits(s: Seq<char>)
    ensures
        fraction_digits(s).len() <= 6,
        all_digits(fraction_digits(s)),
    decreases s.len(),
{
    if s.len() > 0 {
        lemma_fraction_digits(s.drop_last());
        let d = fraction_digits(s.drop_last());
        if d.len() < 6 && is_ascii_digit(s.last()) {
            assert forall|i: int| 0 <= i < d.len() + 1 implies is_ascii_digit(
                #[trigger] d.push(s.last())[i],
            ) by {
                if i < d.len() {
                    assert(d.push(s.last())[i] == d[i]);
                }
            }
        }
    }
}

proof fn lemma_fraction_bound(digits: Seq<char>)
    requires
        digits.len() <= 6,
        all_digits(digits),
    ensures
        fraction_micros(digits) < 1_000_000,
{
    if digits.len() > 0 {
        crate::text::lemma_decimal_value_bound(digits);
        let n = digits.len();
        let e = (6 - n) as nat;
        lemma_pow10_split(n, e);
        let v = decimal_value(digits);
        assert(v * pow10(e) < pow10(n) * pow10(e)) by (nonlinear_arith)
            requires
                v < pow10(n),
                pow10(e) > 0,
        ;
        lemma_pow10_six();
    }
}

proof fn lemma_pow10_split(a: nat, b: nat)
    ensures
        pow10(a) * pow10(b) == pow10(a + b),
        pow10(b) > 0,
    decreases a,
{
    lemma_pow10_positive(b);
    if a == 0 {
        assert(pow10(a) == 1);
    } else {
        let a1 = (a - 1) as nat;
        lemma_pow10_split(a1, b);
        let x = pow10(a1);
        let y = pow10(b);
        assert(x * y == pow10(a1 + b));
        assert(pow10(a) == 10 * x);
        assert(a1 + b + 1 == a + b);
        assert(pow10(a + b) == 10 * pow10(a1 + b));
        assert(pow10(a) * y == 10 * (x * y)) by (nonlinear_arith)
            requires
                pow10(a) == 10 * x,
        ;
    }
}

proof fn lemma_pow10_six()
    ensures
        pow10(6) == 1_000_000,
{
    assert(pow10(0) == 1);
    assert(pow10(1) == 10);
    assert(pow10(2) == 100);
    assert(pow10(3) == 1000);
    assert(pow10(4) == 10000);
    assert(pow10(5) == 100000);
}

proof fn lemma_pow10_positive(b: nat)
    ensures
        pow10(b) > 0,
    decreases b,
{
    if b > 0 {
        lemma_pow10_positive((b - 1) as nat);
    }
}

fn pow10_u64(e: usize) -> (r: u64)
    requires
        e <= 6,
    ensures
        r == pow10(e as nat),
{
    let mut r: u64 = 1;
    let mut i: usize = 0;
    while i < e
        invariant
            i <= e <= 6,
            r == pow10(i as nat),
            r <= 1_000_000,
        decreases e - i,
    {
        proof {
            lemma_pow10_six();
            lemma_pow10_monotone((i + 1) as nat, 6);
        }
        r = r * 10;
        i = i + 1;
    }
    r
}

proof fn lemma_pow10_monotone(a: nat, b: nat)
    requires
        a <= b,
    ensures
        pow10(a) <= pow10(b),
    decreases b,
{
    if a < b {
        lemma_pow10_monotone(a, (b - 1) as nat);
        lemma_pow10_positive((b - 1) as nat);
    }
}

/// Reads the digits after the decimal point of `v[lo..hi]`.
fn fraction_in(v: &[char], lo: usize, hi: usize) -> (r: u64)
    requires
        lo <= hi <= v@.len(),
    ensures
        r == fraction_micros(fraction_digits(v@.subrange(lo as int, hi as int))),
{
    let ghost s = v@.subrange(lo as int, hi as int);
    let mut digits: Vec<char> = Vec::new();
    let mut i = lo;
    while i < hi
        invariant
            lo <= i <= hi <= v@.len(),
            s == v@.subrange(lo as int, hi as int),
            digits@ == fraction_digits(s.take(i - lo)),
        decreases hi - i,
    {
        assert(s.take(i - lo + 1).drop_last() =~= s.take(i - lo));
        assert(s.take(i - lo + 1).last() == v@[i as int]);
        if digits.len() < 6 && crate::text::ascii_digit(v[i]) {
            digits.push(v[i]);
        }
        i = i + 1;
    }
    assert(s.take(i - lo) =~= s);
    proof {
        lemma_fraction_digits(s);
        lemma_fraction_bound(digits@);
    }
    if digits.len() == 0 {
        return 0;
    }
    let value = match crate::text::digits_value_u64(digits.as_slice(), 0, digits.len()) {
        Some(x) => x,
        None => {
            assert(digits@.subrange(0, digits@.len() as int) =~= digits@);
            proof {
                crate::text::lemma_decimal_value_bound(digits@);
                lemma_pow10_monotone(digits@.len(), 6);
                lemma_pow10_six();
            }
            0
        },
    };
    assert(digits@.subrange(0, digits@.len() as int) =~= digits@);
    let scale = pow10_u64(6 - digits.len());
    proof {
        lemma_pow10_positive((6 - digits@.len()) as nat);
        assert(value <= value * scale) by (nonlinear_arith)
            requires
                scale > 0,
        ;
    }
    value * scale
}

/// Reads an LRC timestamp tag (`mm:ss`, `mm:ss.ff`, `mm:ss.fff`) into
/// microseconds; fraction digits past the sixth are ignored.
pub fn parse_lrc_timestamp_microseconds(value: &str) -> (r: Option<u64>)
    ensures
        r == lrc_timestamp_value(value@),
{
    let v = chars_of(value);
    assert(v@.subrange(0, v@.len() as int) =~= v@);
    lrc_timestamp_in(v.as_slice(), 0, v.len())
}

fn lrc_timestamp_in(v: &[char], lo: usize, hi: usize) -> (r: Option<u64>)
    requires
        lo <= hi <= v@.len(),
    ensures
        r == lrc_timestamp_value(v@.subrange(lo as int, hi as int)),
{
    let (a, b) = trim_bounds(v, lo, hi);
    let ghost token = v@.subrange(a as int, b as int);
    if a == b {
        return None;
    }
    let k = match find_char(v, a, b, ':') {
        Some(k) => k,
        None => return None,
    };
    assert(token.take(k - a) =~= v@.subrange(a as int, k as int));
    let ghost rest = token.skip(k - a + 1);
    assert(rest =~= v@.subrange(k + 1, b as int));
    let (ma, mb) = trim_bounds(v, a, k);
    let minutes = match parse_u64_range(v, ma, mb) {
        Some(m) => m,
        None => return None,
    };
    let (seconds, fraction) = match find_char(v, k + 1, b, '.') {
        Some(d) => {
            assert(rest.take(d - k - 1) =~= v@.subrange(k + 1, d as int));
            assert(rest.skip(d - k) =~= v@.subrange(d + 1, b as int));
            let (sa, sb) = trim_bounds(v, k + 1, d);
            let seconds = match parse_u64_range(v, sa, sb) {
                Some(s) => s,
                None => return None,
            };
            (seconds, fraction_in(v, d + 1, b))
        },
        None => {
            let (sa, sb) = trim_bounds(v, k + 1, b);
            let seconds = match parse_u64_range(v, sa, sb) {
                Some(s) => s,
                None => return None,
            };
            (seconds, 0)
        },
    };
    if seconds >= 60 {
        return None;
    }
    Some(
        saturating_add(
            saturating_mul(saturating_add(saturating_mul(minutes, 60), seconds), 1_000_000),
            fraction,
        ),
    )
}

// ---------------------------------------------------------------------------
// LRC text
// ---------------------------------------------------------------------------

/// The timestamps of the leading `[..]` tags of a line, and the text after them.
pub open spec fn line_tags(rem: Seq<char>) -> (Seq<u64>, Seq<char>)
    decreases rem.len(),
{
    if rem.len() > 0 && rem[0] == '[' {
        match first_index_of(rem, ']') {
            None => (seq![], rem),
            Some(e) => {
                proof {
                    lemma_first_index_of(rem, ']');
                    lemma_trim_start_shrinks(rem.skip(e + 1));
                }
                let (ts, text) = line_tags(trim_start(rem.skip(e + 1)));
                match lrc_timestamp_value(rem.subrange(1, e)) {
                    Some(t) => (seq![t] + ts, text),
                    None => (ts, text),
                }
            },
        }
    } else {
        (seq![], rem)
    }
}

/// The lyric lines one LRC line contributes: one per timestamp tag, all with
/// the line's text.
pub open spec fn line_entries(line: Seq<char>) -> Seq<(u64, Seq<char>)> {
    let (ts, rem) = line_tags(trim(line));
    ts.map_values(|t: u64| (t, trim(rem)))
}

pub open spec fn text_entries(lines: Seq<Seq<char>>) -> Seq<(u64, Seq<char>)>
    decreases lines.len(),
{
    if lines.len() == 0 {
        seq![]
    } else {
        line_entries(lines[0]) + text_entries(lines.drop_first())
    }
}

/// Where a line goes among lines already in order: after every line that is
/// not later than it.
pub open spec fn insert_by_time(sorted: Seq<(u64, Seq<char>)>, x: (u64, Seq<char>)) -> Seq<
    (u64, Seq<char>),
>
    decreases sorted.len(),
{
    if sorted.len() == 0 {
        seq![x]
    } else if sorted.last().0 <= x.0 {
        sorted.push(x)
    } else {
        insert_by_time(sorted.drop_last(), x).push(sorted.last())
    }
}

/// A stable sort by time: `slice::sort_by_key` on the timestamp.
pub open spec fn sort_by_time(s: Seq<(u64, Seq<char>)>) -> Seq<(u64, Seq<char>)>
    decreases s.len(),
{
    if s.len() == 0 {
        s
    } else {
        insert_by_time(sort_by_time(s.drop_last()), s.last())
    }
}

/// `Vec::dedup`: consecutive equal lines kept once.
pub open spec fn dedup_lines(s: Seq<(u64, Seq<char>)>) -> Seq<(u64, Seq<char>)>
    decreases s.len(),
{
    if s.len() == 0 {
        s
    } else {
        let d = dedup_lines(s.drop_last());
        if d.len() > 0 && d.last() == s.last() {
            d
        } else {
            d.push(s.last())
        }
    }
}

/// What `parse_synced_lyrics` reads from raw LRC text.
pub open spec fn synced_lines_value(raw: Option<Seq<char>>) -> Option<Seq<(u64, Seq<char>)>> {
    match raw {
        None => None,
        Some(r) => {
            let t = trim(r);
            if t.len() == 0 {
                None
            } else {
                let entries = text_entries(split_lines(t));
                if entries.len() == 0 {
                    None
                } else {
                    Some(dedup_lines(sort_by_time(entries)))
                }
            }
        },
    }
}

/// The position at which `insert_by_time` puts `x`.
pub open spec fn insert_position(s: Seq<(u64, Seq<char>)>, x: (u64, Seq<char>)) -> int
    decreases s.len(),
{
    if s.len() == 0 {
        0
    } else if s.last().0 <= x.0 {
        s.len() as int
    } else {
        insert_position(s.drop_last(), x)
    }
}

proof fn lemma_insert_position(s: Seq<(u64, Seq<char>)>, x: (u64, Seq<char>))
    ensures
        0 <= insert_position(s, x) <= s.len(),
        insert_by_time(s, x) == s.insert(insert_position(s, x), x),
    decreases s.len(),
{
    if s.len() > 0 && s.last().0 > x.0 {
        lemma_insert_position(s.drop_last(), x);
        let p = insert_position(s, x);
        assert(s.drop_last().insert(p, x).push(s.last()) =~= s.insert(p, x));
    } else if s.len() > 0 {
        assert(s.push(x) =~= s.insert(s.len() as int, x));
    } else {
        assert(seq![x] =~= s.insert(0, x));
    }
}

fn copy_text(s: &String) -> (r: String)
    ensures
        r@ == s@,
{
    s.clone()
}

fn copy_line(l: &LyricLine) -> (r: LyricLine)
    ensures
        r@ == l@,
{
    LyricLine { at_microseconds: l.at_microseconds, text: copy_text(&l.text) }
}

/// Sorts lines by time, keeping lines with equal times in their order.
fn sort_lines_by_time(lines: Vec<LyricLine>) -> (r: Vec<LyricLine>)
    ensures
        lines_view(r@) == sort_by_time(lines_view(lines@)),
{
    let mut out: Vec<LyricLine> = Vec::new();
    let mut i: usize = 0;
    let ghost src = lines_view(lines@);
    while i < lines.len()
        invariant
            i <= lines@.len(),
            src == lines_view(lines@),
            lines_view(out@) == sort_by_time(src.take(i as int)),
        decreases lines@.len() - i,
    {
        let x = copy_line(&lines[i]);
        let ghost sorted = lines_view(out@);
        let mut j = out.len();
        assert(sorted.take(j as int) =~= sorted);
        while j > 0 && out[j - 1].at_microseconds > x.at_microseconds
            invariant
                j <= out@.len(),
                sorted == lines_view(out@),
                insert_position(sorted, x@) == insert_position(sorted.take(j as int), x@),
            decreases j,
        {
            assert(sorted.take(j as int).drop_last() =~= sorted.take(j - 1));
            j = j - 1;
        }
        proof {
            if j > 0 {
                assert(sorted.take(j as int).last().0 <= x@.0);
            }
            lemma_insert_position(sorted, x@);
            assert(src.take(i + 1).drop_last() =~= src.take(i as int));
        }
        out.insert(j, x);
        assert(lines_view(out@) =~= sorted.insert(j as int, x@));
        i = i + 1;
    }
    assert(src.take(i as int) =~= src);
    out
}

/// Drops each line equal to the one kept before it.
fn dedup_sorted_lines(lines: Vec<LyricLine>) -> (r: Vec<LyricLine>)
    ensures
        lines_view(r@) == dedup_lines(lines_view(lines@)),
{
    let mut out: Vec<LyricLine> = Vec::new();
    let mut i: usize = 0;
    let ghost src = lines_view(lines@);
    while i < lines.len()
        invariant
            i <= lines@.len(),
            src == lines_view(lines@),
            lines_view(out@) == dedup_lines(src.take(i as int)),
        decreases lines@.len() - i,
    {
        assert(src.take(i + 1).drop_last() =~= src.take(i as int));
        let n = out.len();
        let same = n > 0 && out[n - 1].at_microseconds == lines[i].at_microseconds
            && out[n - 1].text == lines[i].text;
        if !same {
            out.push(copy_line(&lines[i]));
            assert(lines_view(out@) =~= lines_view(out@.drop_last()).push(src[i as int]));
        }
        i = i + 1;
    }
    assert(src.take(i as int) =~= src);
    out
}

/// Reads the timestamped lines of the LRC line `v[lo..hi]` and appends them to `out`.
fn push_line_entries(v: &[char], lo: usize, hi: usize, out: &mut Vec<LyricLine>)
    requires
        lo <= hi <= v@.len(),
    ensures
        lines_view(final(out)@) == lines_view(old(out)@) + line_entries(
            v@.subrange(lo as int, hi as int),
        ),
{
    let (x, y) = trim_bounds(v, lo, hi);
    let ghost whole = line_tags(v@.subrange(x as int, y as int));
    let mut timestamps: Vec<u64> = Vec::new();
    let mut p = x;
    loop
        invariant
            x <= p <= y <= v@.len(),
            whole == line_tags(v@.subrange(x as int, y as int)),
            whole.0 == timestamps@ + line_tags(v@.subrange(p as int, y as int)).0,
            whole.1 == line_tags(v@.subrange(p as int, y as int)).1,
        ensures
            x <= p <= y,
            whole.0 == timestamps@,
            whole.1 == v@.subrange(p as int, y as int),
        decreases y - p,
    {
        let ghost rem = v@.subrange(p as int, y as int);
        if !(p < y && v[p] == '[') {
            assert(timestamps@ + Seq::<u64>::empty() =~= timestamps@);
            break;
        }
        let e = match find_char(v, p, y, ']') {
            Some(e) => e,
            None => {
                assert(timestamps@ + Seq::<u64>::empty() =~= timestamps@);
                break;
            },
        };
        proof {
            lemma_first_index_of(rem, ']');
        }
        assert(e > p);
        assert(rem.subrange(1, e - p) =~= v@.subrange(p + 1, e as int));
        let stamp = lrc_timestamp_in(v, p + 1, e);
        let next = trim_start_index(v, e + 1, y);
        assert(rem.skip(e - p + 1) =~= v@.subrange(e + 1, y as int));
        let ghost after = line_tags(v@.subrange(next as int, y as int));
        match stamp {
            Some(t) => {
                timestamps.push(t);
                assert(timestamps@ + after.0 =~= timestamps@.drop_last() + (seq![t] + after.0));
            },
            None => {},
        }
        p = next;
    }
    let (ta, tb) = trim_bounds(v, p, y);
    let text = sub_chars(v, ta, tb);
    let ghost text_view = text@;
    let ghost start = lines_view(out@);
    let mut k: usize = 0;
    while k < timestamps.len()
        invariant
            k <= timestamps@.len(),
            text@ == text_view,
            text_view == trim(whole.1),
            lines_view(out@) == start + timestamps@.take(k as int).map_values(
                |t: u64| (t, text_view),
            ),
        decreases timestamps@.len() - k,
    {
        let line = LyricLine { at_microseconds: timestamps[k], text: string_of(text.as_slice()) };
        let ghost prev = out@;
        let ghost lv = line@;
        out.push(line);
        assert(out@ =~= prev.push(line));
        assert(lines_view(out@) =~= lines_view(prev).push(lv));
        assert(timestamps@.take(k + 1).map_values(|t: u64| (t, text_view)) =~= timestamps@.take(
            k as int,
        ).map_values(|t: u64| (t, text_view)).push((timestamps@[k as int], text_view)));
        k = k + 1;
    }
    assert(timestamps@.take(k as int) =~= timestamps@);
}

/// Reads LRC text into lines ordered by time: every `[mm:ss.xx]` tag at the
/// start of a line gives a line with the text after the tags; lines without
/// a readable tag are skipped, and repeated identical lines are kept once.
pub fn parse_synced_lyrics(raw: Option<&str>) -> (r: Option<SyncedLyrics>)
    ensures
        match synced_lines_value(
            match raw {
                Some(s) => Some(s@),
                None => None,
            },
        ) {
            Some(lines) => r matches Some(l) && lines_view(l.lines@) == lines,
            None => r is None,
        },
{
    let raw = match raw {
        Some(s) => s,
        None => return None,
    };
    let v = chars_of(raw);
    let s = v.as_slice();
    let (a, b) = trim_bounds(s, 0, s.len());
    assert(s@.subrange(0, s@.len() as int) =~= s@);
    if a == b {
        return None;
    }
    let ghost t = s@.subrange(a as int, b as int);
    let mut entries: Vec<LyricLine> = Vec::new();
    let mut c = a;
    loop
        invariant_except_break
            text_entries(split_lines(t)) == lines_view(entries@) + text_entries(
                split_lines(s@.subrange(c as int, b as int)),
            ),
        invariant
            a <= c <= b <= s@.len(),
            t == s@.subrange(a as int, b as int),
        ensures
            text_entries(split_lines(t)) == lines_view(entries@),
        decreases b - c,
    {
        let ghost rest = s@.subrange(c as int, b as int);
        let ghost before = lines_view(entries@);
        match find_char(s, c, b, '\n') {
            Some(k) => {
                let mut end = k;
                if end > c && s[end - 1] == '\r' {
                    end = end - 1;
                }
                assert(strip_cr(rest.take(k - c)) =~= s@.subrange(c as int, end as int));
                assert(rest.skip(k - c + 1) =~= s@.subrange(k + 1, b as int));
                push_line_entries(s, c, end, &mut entries);
                assert(split_lines(rest) == seq![strip_cr(rest.take(k - c))] + split_lines(
                    rest.skip(k - c + 1),
                ));
                assert((seq![strip_cr(rest.take(k - c))] + split_lines(rest.skip(k - c + 1))).drop_first()
                    =~= split_lines(rest.skip(k - c + 1)));
                assert(before + (line_entries(s@.subrange(c as int, end as int)) + text_entries(
                    split_lines(s@.subrange(k + 1, b as int)),
                )) =~= lines_view(entries@) + text_entries(
                    split_lines(s@.subrange(k + 1, b as int)),
                ));
                c = k + 1;
            },
            None => {
                if c < b {
                    push_line_entries(s, c, b, &mut entries);
                    assert(split_lines(rest) == seq![rest]);
                    assert(seq![rest].drop_first() =~= Seq::<Seq<char>>::empty());
                    assert(text_entries(Seq::<Seq<char>>::empty()) == Seq::<(u64, Seq<char>)>::empty());
                    assert(text_entries(seq![rest]) == line_entries(seq![rest][0]) + text_entries(
                        seq![rest].drop_first(),
                    ));
                    assert(text_entries(seq![rest]) =~= line_entries(rest));
                } else {
                    assert(rest.len() == 0);
                    assert(before + Seq::<(u64, Seq<char>)>::empty() =~= before);
                }
                break;
            },
        }
    }
    if entries.len() == 0 {
        return None;
    }
    let sorted = sort_lines_by_time(entries);
    let lines = dedup_sorted_lines(sorted);
    Some(SyncedLyrics { lines })
}

// ---------------------------------------------------------------------------
// Order of the lines
// ---------------------------------------------------------------------------

/// Lines whose times never decrease.
pub open spec fn in_time_order(s: Seq<(u64, Seq<char>)>) -> bool {
    forall|i: int, j: int| 0 <= i <= j < s.len() ==> s[i].0 <= s[j].0
}

/// No line directly repeats the one before it.
pub open spec fn no_adjacent_repeats(s: Seq<(u64, Seq<char>)>) -> bool {
    forall|i: int| 0 <= i < s.len() - 1 ==> s[i] != #[trigger] s[i + 1]
}

proof fn lemma_insert_position_bounds(t: Seq<(u64, Seq<char>)>, x: (u64, Seq<char>))
    ensures
        forall|k: int| insert_position(t, x) <= k < t.len() ==> t[k].0 > x.0,
        insert_position(t, x) > 0 ==> t[insert_position(t, x) - 1].0 <= x.0,
    decreases t.len(),
{
    lemma_insert_position(t, x);
    if t.len() > 0 && t.last().0 > x.0 {
        lemma_insert_position_bounds(t.drop_last(), x);
        lemma_insert_position(t.drop_last(), x);
        let p = insert_position(t, x);
        if p > 0 {
            assert(t[p - 1] == t.drop_last()[p - 1]);
        }
        assert forall|k: int| insert_position(t, x) <= k < t.len() implies t[k].0 > x.0 by {
            if k < t.len() - 1 {
                assert(t[k] == t.drop_last()[k]);
            }
        }
    }
}

proof fn lemma_insert_by_time_ordered(t: Seq<(u64, Seq<char>)>, x: (u64, Seq<char>))
    requires
        in_time_order(t),
    ensures
        in_time_order(insert_by_time(t, x)),
        insert_by_time(t, x).len() == t.len() + 1,
{
    lemma_insert_position(t, x);
    lemma_insert_position_bounds(t, x);
    let p = insert_position(t, x);
    let r = insert_by_time(t, x);
    t.insert_ensures(p, x);
    assert forall|i: int, j: int| 0 <= i <= j < r.len() implies r[i].0 <= r[j].0 by {
        if i < p {
            if j < p {
                assert(r[j] == t[j]);
            } else if j == p {
                assert(t[i].0 <= t[p - 1].0);
            } else {
                assert(r[j] == t[j - 1]);
            }
        } else if i == p {
            if j > p {
                assert(r[j] == t[j - 1]);
            }
        } else {
            assert(r[i] == t[i - 1]);
            assert(r[j] == t[j - 1]);
        }
    }
}

proof fn lemma_sort_by_time_ordered(s: Seq<(u64, Seq<char>)>)
    ensures
        in_time_order(sort_by_time(s)),
        sort_by_time(s).len() == s.len(),
    decreases s.len(),
{
    if s.len() > 0 {
        lemma_sort_by_time_ordered(s.drop_last());
        lemma_insert_by_time_ordered(sort_by_time(s.drop_last()), s.last());
    }
}

proof fn lemma_dedup_ordered(s: Seq<(u64, Seq<char>)>)
    requires
        in_time_order(s),
    ensures
        in_time_order(dedup_lines(s)),
        no_adjacent_repeats(dedup_lines(s)),
        dedup_lines(s).len() <= s.len(),
        s.len() > 0 ==> dedup_lines(s).len() > 0 && dedup_lines(s).last() == s.last(),
        forall|i: int| 0 <= i < dedup_lines(s).len() ==> dedup_lines(s)[i].0 <= s.last().0,
    decreases s.len(),
{
    if s.len() > 0 {
        let t = s.drop_last();
        assert(in_time_order(t)) by {
            assert forall|i: int, j: int| 0 <= i <= j < t.len() implies t[i].0 <= t[j].0 by {
                assert(t[i] == s[i]);
                assert(t[j] == s[j]);
            }
        }
        lemma_dedup_ordered(t);
        let d = dedup_lines(t);
        if t.len() > 0 {
            assert(t.last() == s[s.len() - 2]);
        }
        assert forall|i: int| 0 <= i < d.len() implies d[i].0 <= s.last().0 by {
            if t.len() > 0 {
                assert(d[i].0 <= t.last().0);
            }
        }
        if !(d.len() > 0 && d.last() == s.last()) {
            let e = d.push(s.last());
            assert forall|i: int, j: int| 0 <= i <= j < e.len() implies e[i].0 <= e[j].0 by {
                if j < d.len() {
                    assert(e[i] == d[i]);
                    assert(e[j] == d[j]);
                }
            }
            assert forall|i: int| 0 <= i < e.len() - 1 implies e[i] != #[trigger] e[i + 1] by {
                if i + 1 < d.len() {
                    assert(e[i] == d[i]);
                    assert(e[i + 1] == d[i + 1]);
                }
            }
        }
    }
}

/// Parsed lyrics come in time order, and no line directly repeats the one
/// before it.
pub proof fn law_parsed_lyrics_ordered(raw: Option<Seq<char>>)
    ensures
        synced_lines_value(raw) matches Some(lines) ==> in_time_order(lines)
            && no_adjacent_repeats(lines) && lines.len() > 0,
{
    if let Some(r) = raw {
        let t = trim(r);
        let entries = text_entries(split_lines(t));
        lemma_sort_by_time_ordered(entries);
        lemma_dedup_ordered(sort_by_time(entries));
    }
}

// ---------------------------------------------------------------------------
// Following playback
// ---------------------------------------------------------------------------

impl SyncedLyrics {
    /// The index of the line being sung at the given position: the last line
    /// that starts at or before it. For lines out of time order the index is
    /// only known to be in bounds.
    pub fn current_line_index(&self, position_microseconds: u64) -> (r: Option<usize>)
        ensures
            r matches Some(i) ==> i < self.lines@.len(),
            in_time_order(lines_view(self.lines@)) ==> match r {
                None => forall|k: int|
                    0 <= k < self.lines@.len() ==> self.lines@[k].at_microseconds
                        > position_microseconds,
                Some(i) => self.lines@[i as int].at_microseconds <= position_microseconds
                    && forall|k: int|
                    i < k < self.lines@.len() ==> self.lines@[k].at_microseconds
                        > position_microseconds,
            },
    {
        let ghost v = lines_view(self.lines@);
        let mut lo: usize = 0;
        let mut hi: usize = self.lines.len();
        while lo < hi
            invariant
                lo <= hi <= self.lines@.len(),
                v == lines_view(self.lines@),
                in_time_order(v) ==> forall|k: int|
                    0 <= k < lo ==> self.lines@[k].at_microseconds <= position_microseconds,
                in_time_order(v) ==> forall|k: int|
                    hi <= k < self.lines@.len() ==> self.lines@[k].at_microseconds
                        > position_microseconds,
            decreases hi - lo,
        {
            let mid = lo + (hi - lo) / 2;
            if self.lines[mid].at_microseconds <= position_microseconds {
                proof {
                    if in_time_order(v) {
                        assert forall|k: int| 0 <= k < mid + 1 implies self.lines@[k].at_microseconds
                            <= position_microseconds by {
                            assert(v[k].0 <= v[mid as int].0);
                        }
                    }
                }
                lo = mid + 1;
            } else {
                proof {
                    if in_time_order(v) {
                        assert forall|k: int| mid <= k < self.lines@.len() implies self.lines@[k].at_microseconds
                            > position_microseconds by {
                            assert(v[mid as int].0 <= v[k].0);
                        }
                    }
                }
                hi = mid;
            }
        }
        if lo == 0 {
            return None;
        }
        Some(lo - 1)
    }

    /// The text of a line, unless there is no such line or it is blank.
    pub fn line_text(&self, index: usize) -> (r: Option<&str>)
        ensures
            match r {
                Some(t) => index < self.lines@.len() && t@ == self.lines@[index as int].text@
                    && trim(t@).len() > 0,
                None => index >= self.lines@.len() || trim(self.lines@[index as int].text@).len()
                    == 0,
            },
    {
        if index >= self.lines.len() {
            return None;
        }
        let text = self.lines[index].text.as_str();
        let v = chars_of(text);
        let (a, b) = trim_bounds(v.as_slice(), 0, v.len());
        assert(v@.subrange(0, v@.len() as int) =~= v@);
        if a == b {
            None
        } else {
            Some(text)
        }
    }
}

} // verus!
