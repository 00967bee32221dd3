//! `m:ss` playback timestamps: formatting microsecond positions and reading
//! them back.
use vstd::prelude::*;

use crate::text::{
    all_digits, chars_of, decimal_text, decimal_value, digit_char, digit_value, digit_to_char, is_ascii_digit,
    is_white_space, last_index_of, lemma_decimal_text_digits, lemma_digit_char,
    lemma_last_index_of_unique, parse_u64_range, parse_u64_spec, push_decimal, rfind_char,
    sat_add, sat_mul, saturating_add, saturating_mul, trim, trim_bounds,
};

verus! {

/// `{seconds:02}`: a number below 100 written with at least two digits.
pub open spec fn two_digit_text(n: nat) -> Seq<char> {
    if n < 10 {
        seq!['0', digit_char(n)]
    } else {
        decimal_text(n)
    }
}

/// The `minutes:seconds` text of a position given in microseconds.
pub open spec fn timestamp_text(microseconds: nat) -> Seq<char> {
    let total_seconds = microseconds / 1_000_000;
    decimal_text(total_seconds / 60) + seq![':'] + two_digit_text(total_seconds % 60)
}

/// What `parse_timestamp_seconds` reads from `value`: the trimmed text split
/// at its last `:`, both halves trimmed and read as `u64`, seconds below 60.
pub open spec fn timestamp_seconds_value(value: Seq<char>) -> Option<u64> {
    let t = trim(value);
    if t.len() == 0 {
        None
    } else {
        match last_index_of(t, ':') {
            None => None,
            Some(k) => match (
                parse_u64_spec(trim(t.take(k))),
                parse_u64_spec(trim(t.skip(k + 1))),
            ) {
                (Some(minutes), Some(seconds)) => if seconds >= 60 {
                    None
                } else {
                    Some(sat_add(sat_mul(minutes as nat, 60), seconds as nat) as u64)
                },
                _ => None,
            },
        }
    }
}

/// Writes a position in microseconds as `minutes:seconds`, with the seconds
/// padded to two digits.
pub fn format_timestamp_microseconds(microseconds: u64) -> (r: String)
    ensures
        r@ == timestamp_text(microseconds as nat),
{
    let total_seconds = microseconds / 1_000_000;
    let minutes = total_seconds / 60;
    let seconds = total_seconds % 60;
    let mut s = String::new();
    push_decimal(&mut s, minutes);
    s.push(':');
    if seconds < 10 {
        s.push('0');
        let c = digit_to_char(seconds);
        s.push(c);
        assert(s@ =~= timestamp_text(microseconds as nat));
    } else {
        push_decimal(&mut s, seconds);
        assert(s@ =~= timestamp_text(microseconds as nat));
    }
    s
}

/// Reads `minutes:seconds` into a number of seconds.
pub fn parse_timestamp_seconds(value: &str) -> (r: Option<u64>)
    ensures
        r == timestamp_seconds_value(value@),
{
    let v = chars_of(value);
    let n = v.len();
    let (a, b) = trim_bounds(v.as_slice(), 0, n);
    let ghost t = v@.subrange(a as int, b as int);
    assert(v@.subrange(0, n as int) =~= v@);
    if a == b {
        return None;
    }
    let k = match rfind_char(v.as_slice(), a, b, ':') {
        Some(k) => k,
        None => return None,
    };
    let (ma, mb) = trim_bounds(v.as_slice(), a, k);
    let (sa, sb) = trim_bounds(v.as_slice(), k + 1, b);
    assert(t.take(k - a) =~= v@.subrange(a as int, k as int));
    assert(t.skip(k - a + 1) =~= v@.subrange(k + 1, b as int));
    let minutes = match parse_u64_range(v.as_slice(), ma, mb) {
        Some(m) => m,
        None => return None,
    };
    let seconds = match parse_u64_range(v.as_slice(), sa, sb) {
        Some(s) => s,
        None => return None,
    };
    if seconds >= 60 {
        return None;
    }
    Some(saturating_add(saturating_mul(minutes, 60), seconds))
}

/// Reads `minutes:seconds` into a number of microseconds.
pub fn parse_timestamp_microseconds(value: &str) -> (r: Option<u64>)
    ensures
        r == match timestamp_seconds_value(value@) {
            Some(s) => Some(sat_mul(s as nat, 1_000_000) as u64),
            None => None,
        },
{
    match parse_timestamp_seconds(value) {
        Some(seconds) => Some(saturating_mul(seconds, 1_000_000)),
        None => None,
    }
}

proof fn lemma_digits_not_special(s: Seq<char>)
    requires
        all_digits(s),
    ensures
        forall|i: int| 0 <= i < s.len() ==> !is_white_space(#[trigger] s[i]) && s[i] != ':',
{
    assert forall|i: int| 0 <= i < s.len() implies !is_white_space(#[trigger] s[i]) && s[i]
        != ':' by {
        assert(is_ascii_digit(s[i]));
    }
}

proof fn lemma_trim_no_space(s: Seq<char>)
    requires
        forall|i: int| 0 <= i < s.len() ==> !is_white_space(#[trigger] s[i]),
    ensures
        trim(s) == s,
{
    if s.len() > 0 {
        assert(!is_white_space(s[0]));
        assert(!is_white_space(s.last()));
    }
}

/// Reading back a formatted timestamp gives the whole seconds of the
/// position it was written from.
pub proof fn law_timestamp_roundtrip(microseconds: u64)
    ensures
        timestamp_seconds_value(timestamp_text(microseconds as nat)) == Some(
            (microseconds / 1_000_000) as u64,
        ),
{
    let total = (microseconds / 1_000_000) as nat;
    let m = total / 60;
    let sec = total % 60;
    let mt = decimal_text(m);
    let st = two_digit_text(sec);
    let text = timestamp_text(microseconds as nat);
    lemma_decimal_text_digits(m);
    if sec >= 10 {
        lemma_decimal_text_digits(sec);
    } else {
        lemma_digit_char(sec);
        let z = seq!['0', digit_char(sec)];
        assert(z.drop_last() =~= seq!['0']);
        assert(seq!['0'].drop_last() =~= Seq::<char>::empty());
        assert(decimal_value(Seq::<char>::empty()) == 0);
        assert(decimal_value(seq!['0']) == decimal_value(seq!['0'].drop_last()) * 10
            + digit_value(seq!['0'].last()));
        assert(decimal_value(seq!['0']) == 0);
        assert(decimal_value(z) == decimal_value(z.drop_last()) * 10 + digit_value(z.last()));
        assert(decimal_value(z) == sec);
        assert(all_digits(z)) by {
            assert forall|i: int| 0 <= i < z.len() implies is_ascii_digit(#[trigger] z[i]) by {}
        }
    }
    assert(all_digits(st));
    assert(st.len() > 0);
    lemma_digits_not_special(mt);
    lemma_digits_not_special(st);
    assert(text =~= mt + seq![':'] + st);
    assert forall|i: int| 0 <= i < text.len() implies !is_white_space(#[trigger] text[i]) by {
        if i < mt.len() {
            assert(text[i] == mt[i]);
        } else if i > mt.len() {
            assert(text[i] == st[i - mt.len() - 1]);
        }
    }
    lemma_trim_no_space(text);
    let k = mt.len() as int;
    assert forall|j: int| k < j < text.len() implies text[j] != ':' by {
        assert(text[j] == st[j - k - 1]);
    }
    lemma_last_index_of_unique(text, ':', k);
    assert(text.take(k) =~= mt);
    assert(text.skip(k + 1) =~= st);
    lemma_trim_no_space(mt);
    lemma_trim_no_space(st);
    assert(mt[0] != '+');
    assert(st[0] != '+');
    assert(m * 60 + sec == total);
    assert(total <= u64::MAX);
}

} // verus!
