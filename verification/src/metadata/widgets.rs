//! Fitting a metadata text into its band: a binary search for the longest
//! truncation that fits, driven by measurements that the caller makes with
//! the label's font.
use vstd::prelude::*;
use crate::model::metadata::TruncateMode;
use crate::text::{chars_of, push_chars, string_of, sub_chars};

verus! {

/// The ellipsis that marks a truncation.
pub open spec fn ellipsis() -> Seq<char> {
    seq!['\u{2026}']
}

/// The text cut to `k` characters: its first ones then an ellipsis, or an
/// ellipsis then its last ones.
pub open spec fn cut_text(chars: Seq<char>, mode: TruncateMode, k: int) -> Seq<char> {
    match mode {
        TruncateMode::End => chars.take(k) + ellipsis(),
        TruncateMode::Start => ellipsis() + chars.skip(chars.len() - k),
    }
}

/// Where a search stands: the bounds still open, and the longest cut known
/// to fit.
pub struct SearchView {
    pub low: int,
    pub high: int,
    pub best: Option<int>,
}

pub open spec fn searching(v: SearchView) -> bool {
    v.low <= v.high
}

/// The cut measured next.
pub open spec fn probe(v: SearchView) -> int {
    (v.low + v.high) / 2
}

/// The search after the probe did or did not fit: a fit moves the lower
/// bound up and is kept as the best; a miss moves the upper bound down, and
/// a miss of the shortest cut ends the search.
pub open spec fn search_step(v: SearchView, fits: bool) -> SearchView {
    let mid = probe(v);
    if fits {
        SearchView { low: mid + 1, high: v.high, best: Some(mid) }
    } else if mid == 0 {
        SearchView { low: v.low, high: -1, best: v.best }
    } else {
        SearchView { low: v.low, high: mid - 1, best: v.best }
    }
}

/// Where a search ends, when each probe `k` fits exactly when `fits(k)`.
pub open spec fn search_result(v: SearchView, fits: spec_fn(int) -> bool) -> Option<int>
    decreases v.high - v.low + 1,
{
    if !searching(v) || v.low < 0 {
        v.best
    } else {
        search_result(search_step(v, fits(probe(v))), fits)
    }
}

/// The text shown for the outcome of a search: the best cut, or the
/// ellipsis alone when no cut fits.
pub open spec fn outcome_text(chars: Seq<char>, mode: TruncateMode, best: Option<int>) -> Seq<char> {
    match best {
        Some(k) => cut_text(chars, mode, k),
        None => ellipsis(),
    }
}

/// What the caller does next: measure a candidate and report whether it
/// fits, or show the text.
pub enum TruncationStep {
    Measure(String),
    Done(String),
}

/// A truncation in progress.
pub struct Truncation {
    pub chars: Vec<char>,
    pub mode: TruncateMode,
    /// Whether the whole text was measured already and did not fit.
    pub searching: bool,
    pub low: usize,
    pub high: usize,
    /// The search was ended by a miss of the shortest cut.
    pub stopped: bool,
    pub best: Option<usize>,
}

impl Truncation {
    pub open spec fn view(&self) -> SearchView {
        SearchView {
            low: self.low as int,
            high: if self.stopped {
                -1
            } else {
                self.high as int
            },
            best: match self.best {
                Some(k) => Some(k as int),
                None => None,
            },
        }
    }

    /// The bounds stay within the text.
    pub open spec fn well_formed(&self) -> bool {
        &&& self.high <= self.chars@.len()
        &&& self.low <= self.chars@.len() + 1
        &&& self.best matches Some(k) ==> k <= self.chars@.len()
        &&& self.chars@.len() < usize::MAX
    }
}

/// `cut_text` as a `String`.
fn cut_string(chars: &Vec<char>, mode: TruncateMode, k: usize) -> (r: String)
    requires
        k <= chars@.len(),
    ensures
        r@ == cut_text(chars@, mode, k as int),
{
    match mode {
        TruncateMode::End => {
            let mut s = string_of(sub_chars(chars.as_slice(), 0, k).as_slice());
            s.push('\u{2026}');
            assert(s@ =~= cut_text(chars@, mode, k as int));
            s
        },
        TruncateMode::Start => {
            let mut s = String::new();
            s.push('\u{2026}');
            push_chars(&mut s, sub_chars(chars.as_slice(), chars.len() - k, chars.len()).as_slice());
            assert(s@ =~= cut_text(chars@, mode, k as int));
            s
        },
    }
}

impl Truncation {
    /// Starts fitting `text`: an empty text is shown as it is; any other
    /// is measured whole first.
    pub fn start(text: &str, mode: TruncateMode) -> (r: (Truncation, TruncationStep))
        requires
            text@.len() < usize::MAX,
        ensures
            r.0.well_formed(),
            !r.0.searching,
            r.0.chars@ == text@,
            r.0.mode == mode,
            text@.len() == 0 ==> (r.1 matches TruncationStep::Done(t) && t@.len() == 0),
            text@.len() > 0 ==> (r.1 matches TruncationStep::Measure(t) && t@ == text@),
    {
        let chars = chars_of(text);
        let step = if chars.len() == 0 {
            TruncationStep::Done(String::new())
        } else {
            TruncationStep::Measure(string_of(chars.as_slice()))
        };
        (
            Truncation {
                chars,
                mode,
                searching: false,
                low: 0,
                high: 0,
                stopped: false,
                best: None,
            },
            step,
        )
    }

    /// The next step once the last candidate was measured: whether it
    /// fits the band.
    pub fn advance(&mut self, fits: bool) -> (r: TruncationStep)
        requires
            old(self).well_formed(),
            old(self).searching ==> searching(old(self).view()),
        ensures
            final(self).well_formed(),
            final(self).chars@ == old(self).chars@,
            final(self).mode == old(self).mode,
            final(self).searching,
            !old(self).searching && fits ==> (r matches TruncationStep::Done(t) && t@ == old(
                self,
            ).chars@),
            !old(self).searching && !fits ==> final(self).view() == (SearchView {
                low: 0,
                high: old(self).chars@.len() as int,
                best: None,
            }),
            old(self).searching ==> final(self).view() == search_step(old(self).view(), fits),
            (old(self).searching || !fits) ==> (if searching(final(self).view()) {
                r matches TruncationStep::Measure(t) && t@ == cut_text(
                    final(self).chars@,
                    final(self).mode,
                    probe(final(self).view()),
                )
            } else {
                r matches TruncationStep::Done(t) && t@ == outcome_text(
                    final(self).chars@,
                    final(self).mode,
                    final(self).view().best,
                )
            }),
    {
        if !self.searching {
            self.searching = true;
            if fits {
                self.low = self.chars.len() + 1;
                self.high = 0;
                return TruncationStep::Done(string_of(self.chars.as_slice()));
            }
            self.low = 0;
            self.high = self.chars.len();
            self.stopped = false;
            self.best = None;
        } else {
            let mid = self.low + (self.high - self.low) / 2;
            assert(mid == probe(old(self).view()));
            if fits {
                self.best = Some(mid);
                self.low = mid + 1;
            } else if mid == 0 {
                self.stopped = true;
            } else {
                self.high = mid - 1;
            }
        }
        if !self.stopped && self.low <= self.high {
            let mid = self.low + (self.high - self.low) / 2;
            TruncationStep::Measure(cut_string(&self.chars, self.mode, mid))
        } else {
            match self.best {
                Some(k) => TruncationStep::Done(cut_string(&self.chars, self.mode, k)),
                None => {
                    let mut s = String::new();
                    s.push('\u{2026}');
                    assert(s@ =~= ellipsis());
                    TruncationStep::Done(s)
                },
            }
        }
    }
}

/// With measurements that never let a shorter cut fail where a longer one
/// fits, the search finds the longest cut that fits, or none when even
/// the shortest does not.
pub proof fn law_search_finds_longest_fit(n: int, fits: spec_fn(int) -> bool)
    requires
        n >= 0,
        forall|j: int, k: int| 0 <= j <= k <= n && #[trigger] fits(k) ==> #[trigger] fits(j),
    ensures
        match search_result(SearchView { low: 0, high: n, best: None }, fits) {
            Some(k) => 0 <= k <= n && fits(k) && forall|j: int| k < j <= n ==> !#[trigger] fits(j),
            None => forall|j: int| 0 <= j <= n ==> !#[trigger] fits(j),
        },
{
    lemma_search_invariant(SearchView { low: 0, high: n, best: None }, n, fits);
    match search_result(SearchView { low: 0, high: n, best: None }, fits) {
        Some(k) => {
            assert forall|j: int| k < j <= n implies !#[trigger] fits(j) by {
                if fits(j) {
                    assert(fits(k + 1));
                }
            }
        },
        None => {
            assert forall|j: int| 0 <= j <= n implies !#[trigger] fits(j) by {
                if fits(j) {
                    assert(fits(0));
                }
            }
        },
    }
}

/// What a search keeps true: the bounds stay in order, the best is the cut
/// just below `low` and fits, and the cut just above `high` does not.
pub open spec fn search_invariant(v: SearchView, n: int, fits: spec_fn(int) -> bool) -> bool {
    &&& 0 <= v.low
    &&& -1 <= v.high <= n
    &&& v.low <= v.high + 1
    &&& v.best == (if v.low > 0 {
        Some(v.low - 1)
    } else {
        None::<int>
    })
    &&& (v.low > 0 ==> fits(v.low - 1))
    &&& (v.high + 1 <= n ==> !fits(v.high + 1))
}

proof fn lemma_search_invariant(v: SearchView, n: int, fits: spec_fn(int) -> bool)
    requires
        n >= 0,
        search_invariant(v, n, fits),
    ensures
        match search_result(v, fits) {
            Some(k) => 0 <= k <= n && fits(k) && (k < n ==> !fits(k + 1)),
            None => !fits(0),
        },
    decreases v.high - v.low + 1,
{
    if searching(v) {
        lemma_search_invariant(search_step(v, fits(probe(v))), n, fits);
    }
}

} // verus!
