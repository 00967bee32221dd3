//! The order in which the characters of a metadata text appear when it is
//! animated, and whether an animation runs at all.
use vstd::prelude::*;
use crate::model::metadata::{MetadataSectionConfig, RevealDirection, TextAnimationMode};
use crate::text::{push_signed_decimal, push_str, signed_decimal_text};

verus! {

/// A character's place in the text: its index, its column and its line.
pub type GridPoint = (int, int, int);

/// The characters other than line breaks among the first `n`, with their
/// column and line, and the column and line that come next.
pub open spec fn walk(chars: Seq<char>, n: nat) -> (Seq<GridPoint>, int, int)
    decreases n,
{
    if n == 0 {
        (Seq::empty(), 0, 0)
    } else {
        let (points, x, y) = walk(chars, (n - 1) as nat);
        if chars[n - 1] == '\n' {
            (points, 0, y + 1)
        } else {
            (points.push((n - 1, x, y)), x + 1, y)
        }
    }
}

/// The characters other than line breaks, in text order, with their places.
pub open spec fn grid_points(chars: Seq<char>) -> Seq<GridPoint> {
    walk(chars, chars.len()).0
}

/// What a character is ordered by, for each direction.
pub open spec fn reveal_key(direction: RevealDirection, x: int, y: int) -> (int, int, int) {
    match direction {
        RevealDirection::TopLeftToBottomRight => (x + y, y, x),
        RevealDirection::LeftToRight => (x, y, 0),
        RevealDirection::RightToLeft => (-x, y, 0),
        RevealDirection::TopToBottom => (y, x, 0),
        RevealDirection::BottomToTop => (-y, x, 0),
        RevealDirection::BottomRightToTopLeft => (-(x + y), -y, -x),
    }
}

/// Tuples ordered as Rust orders them: by the first part, then the second,
/// then the third.
pub open spec fn key_le(a: (int, int, int), b: (int, int, int)) -> bool {
    a.0 < b.0 || (a.0 == b.0 && (a.1 < b.1 || (a.1 == b.1 && a.2 <= b.2)))
}

pub open spec fn point_key(direction: RevealDirection, p: GridPoint) -> (int, int, int) {
    reveal_key(direction, p.1, p.2)
}

/// Puts `p` among points already in order, after every point whose key is
/// not greater.
pub open spec fn insert_by_key(direction: RevealDirection, sorted: Seq<GridPoint>, p: GridPoint) -> Seq<GridPoint>
    decreases sorted.len(),
{
    if sorted.len() == 0 {
        seq![p]
    } else if key_le(point_key(direction, sorted.last()), point_key(direction, p)) {
        sorted.push(p)
    } else {
        insert_by_key(direction, sorted.drop_last(), p).push(sorted.last())
    }
}

/// The stable sort by key that `slice::sort_by_key` makes.
pub open spec fn sort_by_key(direction: RevealDirection, s: Seq<GridPoint>) -> Seq<GridPoint>
    decreases s.len(),
{
    if s.len() == 0 {
        s
    } else {
        insert_by_key(direction, sort_by_key(direction, s.drop_last()), s.last())
    }
}

/// The order in which the characters appear: their indices, sorted by key.
pub open spec fn reveal_sequence(chars: Seq<char>, direction: RevealDirection) -> Seq<int> {
    sort_by_key(direction, grid_points(chars)).map_values(|p: GridPoint| p.0)
}

/// The position at which `insert_by_key` puts `p`.
pub open spec fn key_insert_position(direction: RevealDirection, s: Seq<GridPoint>, p: GridPoint) -> int
    decreases s.len(),
{
    if s.len() == 0 {
        0
    } else if key_le(point_key(direction, s.last()), point_key(direction, p)) {
        s.len() as int
    } else {
        key_insert_position(direction, s.drop_last(), p)
    }
}

proof fn lemma_key_insert_position(direction: RevealDirection, s: Seq<GridPoint>, p: GridPoint)
    ensures
        0 <= key_insert_position(direction, s, p) <= s.len(),
        insert_by_key(direction, s, p) == s.insert(key_insert_position(direction, s, p), p),
    decreases s.len(),
{
    if s.len() > 0 && !key_le(point_key(direction, s.last()), point_key(direction, p)) {
        lemma_key_insert_position(direction, s.drop_last(), p);
        let q = key_insert_position(direction, s, p);
        assert(s.drop_last().insert(q, p).push(s.last()) =~= s.insert(q, p));
    } else if s.len() > 0 {
        assert(s.push(p) =~= s.insert(s.len() as int, p));
    } else {
        assert(seq![p] =~= s.insert(0, p));
    }
}

/// A point of the text as the executable code holds it.
pub type ExecPoint = (usize, i64, i64);

pub open spec fn point_view(p: ExecPoint) -> GridPoint {
    (p.0 as int, p.1 as int, p.2 as int)
}

pub open spec fn points_view(s: Seq<ExecPoint>) -> Seq<GridPoint> {
    s.map_values(|p: ExecPoint| point_view(p))
}

proof fn lemma_walk_bounds(chars: Seq<char>, n: nat)
    requires
        n <= chars.len(),
    ensures
        0 <= walk(chars, n).1,
        0 <= walk(chars, n).2,
        walk(chars, n).1 + walk(chars, n).2 <= n,
        walk(chars, n).0.len() <= n,
        forall|k: int|
            0 <= k < walk(chars, n).0.len() ==> 0 <= (#[trigger] walk(chars, n).0[k]).0 < n,
    decreases n,
{
    if n > 0 {
        lemma_walk_bounds(chars, (n - 1) as nat);
    }
}

/// The characters other than line breaks, with their places.
fn text_points(chars: &[char]) -> (r: Vec<ExecPoint>)
    requires
        chars@.len() <= i32::MAX,
    ensures
        points_view(r@) == grid_points(chars@),
        forall|k: int| 0 <= k < r@.len() ==> 0 <= (#[trigger] r@[k]).1 && 0 <= r@[k].2 && r@[k].1
            + r@[k].2 <= i32::MAX,
{
    let mut points: Vec<ExecPoint> = Vec::new();
    let mut x: i64 = 0;
    let mut y: i64 = 0;
    let mut i: usize = 0;
    while i < chars.len()
        invariant
            i <= chars@.len() <= i32::MAX,
            walk(chars@, i as nat) == (points_view(points@), x as int, y as int),
            0 <= x,
            0 <= y,
            x + y <= i,
            forall|k: int| 0 <= k < points@.len() ==> 0 <= (#[trigger] points@[k]).1 && 0 <= points@[k].2
                && points@[k].1 + points@[k].2 <= i32::MAX,
        decreases chars@.len() - i,
    {
        if chars[i] == '\n' {
            y = y + 1;
            x = 0;
        } else {
            points.push((i, x, y));
            assert(points_view(points@) =~= walk(chars@, i as nat).0.push((i as int, x as int, y as int)));
            x = x + 1;
        }
        i = i + 1;
    }
    points
}

/// The key of a point, in the executable code.
fn exec_key(direction: RevealDirection, x: i64, y: i64) -> (r: (i64, i64, i64))
    requires
        0 <= x,
        0 <= y,
        x + y <= i32::MAX,
    ensures
        (r.0 as int, r.1 as int, r.2 as int) == reveal_key(direction, x as int, y as int),
{
    match direction {
        RevealDirection::TopLeftToBottomRight => (x + y, y, x),
        RevealDirection::LeftToRight => (x, y, 0),
        RevealDirection::RightToLeft => (-x, y, 0),
        RevealDirection::TopToBottom => (y, x, 0),
        RevealDirection::BottomToTop => (-y, x, 0),
        RevealDirection::BottomRightToTopLeft => (-(x + y), -y, -x),
    }
}

fn exec_key_le(a: (i64, i64, i64), b: (i64, i64, i64)) -> (r: bool)
    ensures
        r == key_le((a.0 as int, a.1 as int, a.2 as int), (b.0 as int, b.1 as int, b.2 as int)),
{
    a.0 < b.0 || (a.0 == b.0 && (a.1 < b.1 || (a.1 == b.1 && a.2 <= b.2)))
}

/// The order in which the characters of `chars` appear: the indices of
/// those other than line breaks, sorted, for a stable sort, by
/// the direction's key of their column and line.
pub fn reveal_order(chars: &[char], direction: RevealDirection) -> (r: Vec<usize>)
    requires
        chars@.len() <= i32::MAX,
    ensures
        r@.map_values(|i: usize| i as int) == reveal_sequence(chars@, direction),
{
    let points = text_points(chars);
    let ghost src = points_view(points@);
    let mut out: Vec<ExecPoint> = Vec::new();
    let mut i: usize = 0;
    while i < points.len()
        invariant
            i <= points@.len(),
            src == points_view(points@),
            points_view(out@) == sort_by_key(direction, src.take(i as int)),
            forall|k: int| 0 <= k < points@.len() ==> 0 <= (#[trigger] points@[k]).1 && 0 <= points@[k].2
                && points@[k].1 + points@[k].2 <= i32::MAX,
            forall|k: int| 0 <= k < out@.len() ==> 0 <= (#[trigger] out@[k]).1 && 0 <= out@[k].2
                && out@[k].1 + out@[k].2 <= i32::MAX,
        decreases points@.len() - i,
    {
        let p = points[i];
        let key = exec_key(direction, p.1, p.2);
        let ghost sorted = points_view(out@);
        let mut j = out.len();
        assert(sorted.take(j as int) =~= sorted);
        while j > 0 && !exec_key_le(exec_key(direction, out[j - 1].1, out[j - 1].2), key)
            invariant
                j <= out@.len(),
                sorted == points_view(out@),
                key_insert_position(direction, sorted, point_view(p)) == key_insert_position(
                    direction,
                    sorted.take(j as int),
                    point_view(p),
                ),
                forall|k: int| 0 <= k < out@.len() ==> 0 <= (#[trigger] out@[k]).1 && 0 <= out@[k].2
                    && out@[k].1 + out@[k].2 <= i32::MAX,
                (key.0 as int, key.1 as int, key.2 as int) == point_key(direction, point_view(p)),
            decreases j,
        {
            assert(sorted.take(j as int).drop_last() =~= sorted.take(j - 1));
            j = j - 1;
        }
        proof {
            if j > 0 {
                assert(sorted.take(j as int).last() == sorted[j - 1]);
            }
            lemma_key_insert_position(direction, sorted, point_view(p));
            assert(src.take(i + 1).drop_last() =~= src.take(i as int));
            assert(src.take(i + 1).last() == point_view(p));
        }
        out.insert(j, p);
        assert(points_view(out@) =~= sorted.insert(j as int, point_view(p)));
        i = i + 1;
    }
    assert(src.take(i as int) =~= src);
    let mut order: Vec<usize> = Vec::new();
    let mut k: usize = 0;
    while k < out.len()
        invariant
            k <= out@.len(),
            order@.len() == k,
            forall|m: int| 0 <= m < k ==> #[trigger] order@[m] == out@[m].0,
        decreases out@.len() - k,
    {
        order.push(out[k].0);
        k = k + 1;
    }
    assert(order@.map_values(|i: usize| i as int) =~= points_view(out@).map_values(
        |p: GridPoint| p.0,
    ));
    order
}

/// Whether a metadata text is animated: only with a mode and a duration.
pub open spec fn animates(section: MetadataSectionConfig) -> bool {
    section.animation.duration_ms != 0 && section.animation.mode != TextAnimationMode::Off
}

/// Whether a new text of `section` is revealed by an animation rather than
/// shown at once.
pub fn animation_enabled(section: &MetadataSectionConfig) -> (r: bool)
    ensures
        r == animates(*section),
{
    section.animation.duration_ms != 0 && section.animation.mode != TextAnimationMode::Off
}

/// Points whose keys never decrease.
pub open spec fn in_key_order(direction: RevealDirection, s: Seq<GridPoint>) -> bool {
    forall|i: int, j: int|
        0 <= i <= j < s.len() ==> key_le(
            point_key(direction, #[trigger] s[i]),
            point_key(direction, #[trigger] s[j]),
        )
}

/// Points of equal key that keep the order of their indices.
pub open spec fn ties_in_text_order(direction: RevealDirection, s: Seq<GridPoint>) -> bool {
    forall|i: int, j: int|
        0 <= i < j < s.len() && point_key(direction, #[trigger] s[i]) == point_key(
            direction,
            #[trigger] s[j],
        ) ==> s[i].0 < s[j].0
}

/// Points in increasing order of their indices.
pub open spec fn in_text_order(s: Seq<GridPoint>) -> bool {
    forall|i: int, j: int| 0 <= i < j < s.len() ==> (#[trigger] s[i]).0 < (#[trigger] s[j]).0
}

proof fn lemma_key_insert_position_bounds(direction: RevealDirection, t: Seq<GridPoint>, x: GridPoint)
    ensures
        forall|k: int|
            key_insert_position(direction, t, x) <= k < t.len() ==> !key_le(
                point_key(direction, #[trigger] t[k]),
                point_key(direction, x),
            ),
        key_insert_position(direction, t, x) > 0 ==> key_le(
            point_key(direction, t[key_insert_position(direction, t, x) - 1]),
            point_key(direction, x),
        ),
    decreases t.len(),
{
    lemma_key_insert_position(direction, t, x);
    if t.len() > 0 && !key_le(point_key(direction, t.last()), point_key(direction, x)) {
        lemma_key_insert_position_bounds(direction, t.drop_last(), x);
        lemma_key_insert_position(direction, t.drop_last(), x);
        let p = key_insert_position(direction, t, x);
        if p > 0 {
            assert(t[p - 1] == t.drop_last()[p - 1]);
        }
        assert forall|k: int| key_insert_position(direction, t, x) <= k < t.len() implies !key_le(
            point_key(direction, #[trigger] t[k]),
            point_key(direction, x),
        ) by {
            if k < t.len() - 1 {
                assert(t[k] == t.drop_last()[k]);
            }
        }
    }
}

proof fn lemma_sort_by_key_facts(direction: RevealDirection, s: Seq<GridPoint>)
    ensures
        in_key_order(direction, sort_by_key(direction, s)),
        sort_by_key(direction, s).to_multiset() == s.to_multiset(),
        sort_by_key(direction, s).len() == s.len(),
        in_text_order(s) ==> ties_in_text_order(direction, sort_by_key(direction, s)),
        forall|k: int|
            0 <= k < sort_by_key(direction, s).len() ==> s.contains(
                #[trigger] sort_by_key(direction, s)[k],
            ),
    decreases s.len(),
{
    broadcast use vstd::seq_lib::to_multiset_insert, vstd::seq_lib::to_multiset_build;

    if s.len() == 0 {
        return ;
    }
    let d = s.drop_last();
    let x = s.last();
    let t = sort_by_key(direction, d);
    lemma_sort_by_key_facts(direction, d);
    lemma_key_insert_position(direction, t, x);
    lemma_key_insert_position_bounds(direction, t, x);
    let p = key_insert_position(direction, t, x);
    let r = sort_by_key(direction, s);
    assert(r == t.insert(p, x));
    t.insert_ensures(p, x);
    assert(s =~= d.push(x));
    assert forall|i: int, j: int| 0 <= i <= j < r.len() implies key_le(
        point_key(direction, #[trigger] r[i]),
        point_key(direction, #[trigger] r[j]),
    ) by {
        if i < p {
            if j < p {
                assert(r[j] == t[j]);
            } else if j == p {
                assert(key_le(point_key(direction, t[i]), point_key(direction, t[p - 1])));
            } else {
                assert(r[j] == t[j - 1]);
            }
        } else if i == p {
            if j > p {
                assert(r[j] == t[j - 1]);
            }
        } else {
            assert(r[i] == t[i - 1]);
            assert(r[j] == t[j - 1]);
        }
    }
    assert forall|k: int| 0 <= k < r.len() implies s.contains(#[trigger] r[k]) by {
        if k < p {
            assert(d.contains(t[k]));
            let m = choose|m: int| 0 <= m < d.len() && d[m] == t[k];
            assert(s[m] == t[k]);
        } else if k == p {
            assert(s[s.len() - 1] == x);
        } else {
            assert(r[k] == t[k - 1]);
            assert(d.contains(t[k - 1]));
            let m = choose|m: int| 0 <= m < d.len() && d[m] == t[k - 1];
            assert(s[m] == t[k - 1]);
        }
    }
    if in_text_order(s) {
        assert(in_text_order(d));
        assert forall|k: int| 0 <= k < t.len() implies (#[trigger] t[k]).0 < x.0 by {
            assert(d.contains(t[k]));
            let m = choose|m: int| 0 <= m < d.len() && d[m] == t[k];
            assert(s[m] == d[m]);
        }
        assert forall|i: int, j: int|
            0 <= i < j < r.len() && point_key(direction, #[trigger] r[i]) == point_key(
                direction,
                #[trigger] r[j],
            ) implies r[i].0 < r[j].0 by {
            if i < p {
                if j < p {
                    assert(r[j] == t[j]);
                } else if j == p {
                } else {
                    assert(r[j] == t[j - 1]);
                }
            } else if i == p {
                assert(r[j] == t[j - 1]);
                assert(!key_le(point_key(direction, t[j - 1]), point_key(direction, x)));
            } else {
                assert(r[i] == t[i - 1]);
                assert(r[j] == t[j - 1]);
            }
        }
    }
}

proof fn lemma_walk_in_text_order(chars: Seq<char>, n: nat)
    requires
        n <= chars.len(),
    ensures
        in_text_order(walk(chars, n).0),
        forall|k: int| 0 <= k < walk(chars, n).0.len() ==> (#[trigger] walk(chars, n).0[k]).0 < n,
    decreases n,
{
    if n > 0 {
        lemma_walk_in_text_order(chars, (n - 1) as nat);
    }
}

/// The reveal order lists each character other than a line break exactly
/// once; their keys never decrease along it, and characters of equal key
/// come in text order.
pub proof fn law_reveal_order_is_stable_sort(chars: Seq<char>, direction: RevealDirection)
    ensures
        sort_by_key(direction, grid_points(chars)).to_multiset() == grid_points(chars).to_multiset(),
        in_key_order(direction, sort_by_key(direction, grid_points(chars))),
        ties_in_text_order(direction, sort_by_key(direction, grid_points(chars))),
        forall|k: int|
            0 <= k < grid_points(chars).len() ==> chars[(#[trigger] grid_points(chars)[k]).0] != '\n',
{
    lemma_walk_in_text_order(chars, chars.len());
    lemma_sort_by_key_facts(direction, grid_points(chars));
    lemma_walk_points_visible(chars, chars.len());
}

proof fn lemma_walk_points_visible(chars: Seq<char>, n: nat)
    requires
        n <= chars.len(),
    ensures
        forall|k: int|
            0 <= k < walk(chars, n).0.len() ==> 0 <= (#[trigger] walk(chars, n).0[k]).0 < n && chars[walk(
                chars,
                n,
            ).0[k].0] != '\n',
    decreases n,
{
    if n > 0 {
        lemma_walk_points_visible(chars, (n - 1) as nat);
        let prev = walk(chars, (n - 1) as nat).0;
        let cur = walk(chars, n).0;
        assert forall|k: int| 0 <= k < cur.len() implies 0 <= (#[trigger] cur[k]).0 < n && chars[cur[k].0]
            != '\n' by {
            if k < prev.len() {
                assert(cur[k] == prev[k]);
            }
        }
    }
}

/// The markup of a text being revealed: each character other than a line
/// break in a span with its alpha, full (at least 1) when it is visible and
/// 1 when not, its text escaped for markup.
pub open spec fn visibility_markup(
    chars: Seq<char>,
    escaped: Seq<Seq<char>>,
    visible: Seq<bool>,
    target_alpha: i32,
) -> Seq<char>
    decreases chars.len(),
{
    if chars.len() == 0 {
        Seq::empty()
    } else {
        let n = (chars.len() - 1) as int;
        let before = visibility_markup(chars.drop_last(), escaped, visible, target_alpha);
        if chars[n] == '\n' {
            before.push('\n')
        } else {
            let alpha: int = if 0 <= n < visible.len() && visible[n] {
                if target_alpha >= 1 {
                    target_alpha as int
                } else {
                    1
                }
            } else {
                1
            };
            before + "<span alpha=\""@ + signed_decimal_text(alpha) + "\">"@ + escaped[n]
                + "</span>"@
        }
    }
}

/// Writes the markup of a text being revealed; `escaped[i]` is the markup
/// escape of `chars[i]`.
pub fn markup_from_visibility(chars: &[char], escaped: &Vec<String>, visible: &[bool], target_alpha: i32) -> (r: String)
    requires
        escaped@.len() == chars@.len(),
    ensures
        r@ == visibility_markup(chars@, escaped@.map_values(|s: String| s@), visible@, target_alpha),
{
    let ghost esc = escaped@.map_values(|s: String| s@);
    let mut markup = String::new();
    let mut i: usize = 0;
    while i < chars.len()
        invariant
            i <= chars@.len(),
            escaped@.len() == chars@.len(),
            esc == escaped@.map_values(|s: String| s@),
            markup@ == visibility_markup(chars@.take(i as int), esc, visible@, target_alpha),
        decreases chars@.len() - i,
    {
        let ghost before = markup@;
        assert(chars@.take(i + 1).drop_last() =~= chars@.take(i as int));
        assert(chars@.take(i + 1)[i as int] == chars@[i as int]);
        if chars[i] == '\n' {
            markup.push('\n');
        } else {
            let alpha: i32 = if i < visible.len() && visible[i] {
                if target_alpha >= 1 {
                    target_alpha
                } else {
                    1
                }
            } else {
                1
            };
            push_str(&mut markup, "<span alpha=\"");
            push_signed_decimal(&mut markup, alpha as i64);
            push_str(&mut markup, "\">");
            push_str(&mut markup, escaped[i].as_str());
            push_str(&mut markup, "</span>");
            assert(esc[i as int] == escaped@[i as int]@);
            assert(markup@ =~= before + "<span alpha=\""@ + signed_decimal_text(alpha as int) + "\">"@
                + esc[i as int] + "</span>"@);
        }
        i = i + 1;
    }
    assert(chars@.take(i as int) =~= chars@);
    markup
}

} // verus!
