//! Naming the monitors and choosing the one the overlay goes on.
use vstd::prelude::*;
use crate::cli::usize_value;
use crate::text::{
    chars_contain, chars_of, chars_start_with, eq_ignore_ascii_case, equal_ignore_ascii_case,
    lower_chars, lower_text, parse_u64_text, push_str, starts_with, sub_chars, trim, trim_chars,
    contains_text,
};

verus! {

/// What the library knows of a monitor: the names its display reports.
pub struct MonitorInfo {
    pub connector: Option<String>,
    pub manufacturer: Option<String>,
    pub model: Option<String>,
}

pub open spec fn text_of(o: Option<String>) -> Option<Seq<char>> {
    match o {
        Some(s) => Some(s@),
        None => None,
    }
}

/// A connector of a built-in panel: `eDP`, `LVDS` or `DSI`, in any case.
pub open spec fn internal_connector(connector: Seq<char>) -> bool {
    let lower = lower_text(connector);
    starts_with(lower, "edp"@) || starts_with(lower, "lvds"@) || starts_with(lower, "dsi"@)
}

/// A monitor is built in when its connector says so.
pub open spec fn is_internal(m: MonitorInfo) -> bool {
    match m.connector {
        Some(c) => internal_connector(c@),
        None => false,
    }
}

/// The manufacturer and model, as far as they are known.
pub open spec fn description_of(m: MonitorInfo) -> Option<Seq<char>> {
    match (text_of(m.manufacturer), text_of(m.model)) {
        (Some(a), Some(b)) => Some(a + " "@ + b),
        (Some(a), None) => Some(a),
        (None, Some(b)) => Some(b),
        (None, None) => None,
    }
}

/// The name shown for a monitor.
pub open spec fn label_of(m: MonitorInfo) -> Seq<char> {
    match (text_of(m.connector), description_of(m)) {
        (Some(c), Some(d)) => c + " — "@ + d,
        (Some(c), None) => c,
        (None, Some(d)) => d,
        (None, None) => "unknown monitor"@,
    }
}

/// The texts a monitor can be found by: connector, description,
/// manufacturer and model, those that are known, in that order.
pub open spec fn search_terms_of(m: MonitorInfo) -> Seq<Seq<char>> {
    let opt = |o: Option<Seq<char>>|
        match o {
            Some(t) => seq![t],
            None => Seq::<Seq<char>>::empty(),
        };
    opt(text_of(m.connector)) + opt(description_of(m)) + opt(text_of(m.manufacturer)) + opt(
        text_of(m.model),
    )
}

/// Whether one of a monitor's texts contains `needle`, without regard to
/// ASCII case (`needle` being lower case already).
pub open spec fn found_by(m: MonitorInfo, needle: Seq<char>) -> bool {
    exists|k: int|
        0 <= k < search_terms_of(m).len() && contains_text(
            lower_text(#[trigger] search_terms_of(m)[k]),
            needle,
        )
}

/// Among the first `n` monitors, the first that is built in (or, with
/// `internal` false, the first that is not).
pub open spec fn first_by_kind(ms: Seq<MonitorInfo>, internal: bool, n: nat) -> Option<int>
    decreases n,
{
    if n == 0 {
        None
    } else {
        match first_by_kind(ms, internal, (n - 1) as nat) {
            Some(i) => Some(i),
            None => if is_internal(ms[n - 1]) == internal {
                Some(n - 1)
            } else {
                None
            },
        }
    }
}

/// Among the first `n` monitors, the first found by `needle`.
pub open spec fn first_found(ms: Seq<MonitorInfo>, needle: Seq<char>, n: nat) -> Option<int>
    decreases n,
{
    if n == 0 {
        None
    } else {
        match first_found(ms, needle, (n - 1) as nat) {
            Some(i) => Some(i),
            None => if found_by(ms[n - 1], needle) {
                Some(n - 1)
            } else {
                None
            },
        }
    }
}

/// An index written as a selector: digits, with a `#` before them or not.
pub open spec fn index_text(selector: Seq<char>) -> Seq<char> {
    if selector.len() > 0 && selector[0] == '#' {
        selector.drop_first()
    } else {
        selector
    }
}

/// The monitor a `--monitor` selector picks: `auto` the built-in one or
/// else the first, `internal` only a built-in one, `external` the first
/// that is not built in or else the first; an index picks by position, and
/// anything else the first monitor one of whose names contains it, all
/// without regard to ASCII case.
pub open spec fn selected_monitor(ms: Seq<MonitorInfo>, selector: Seq<char>) -> Option<int> {
    if ms.len() == 0 {
        None
    } else if eq_ignore_ascii_case(selector, "auto"@) || eq_ignore_ascii_case(selector, "internal"@) {
        let internal = first_by_kind(ms, true, ms.len());
        if eq_ignore_ascii_case(selector, "internal"@) {
            internal
        } else {
            match internal {
                Some(i) => Some(i),
                None => Some(0),
            }
        }
    } else if eq_ignore_ascii_case(selector, "external"@) {
        match first_by_kind(ms, false, ms.len()) {
            Some(i) => Some(i),
            None => Some(0),
        }
    } else {
        let t = trim(selector);
        match usize_value(index_text(t)) {
            Some(n) => if n < ms.len() {
                Some(n as int)
            } else {
                None
            },
            None => first_found(ms, lower_text(t), ms.len()),
        }
    }
}

fn copy_text(o: &Option<String>) -> (r: Option<String>)
    ensures
        text_of(r) == text_of(*o),
{
    match o {
        Some(s) => Some(s.clone()),
        None => None,
    }
}

/// Whether a connector name is that of a built-in panel.
pub fn is_internal_connector(connector: &str) -> (r: bool)
    ensures
        r == internal_connector(connector@),
{
    let lower = lower_chars(chars_of(connector).as_slice());
    chars_start_with(lower.as_slice(), "edp") || chars_start_with(lower.as_slice(), "lvds")
        || chars_start_with(lower.as_slice(), "dsi")
}

/// Whether a monitor is built in.
pub fn monitor_is_internal(monitor: &MonitorInfo) -> (r: bool)
    ensures
        r == is_internal(*monitor),
{
    match &monitor.connector {
        Some(c) => is_internal_connector(c.as_str()),
        None => false,
    }
}

/// The manufacturer and model of a monitor, as far as they are known.
pub fn monitor_description(monitor: &MonitorInfo) -> (r: Option<String>)
    ensures
        text_of(r) == description_of(*monitor),
{
    match (&monitor.manufacturer, &monitor.model) {
        (Some(manufacturer), Some(model)) => {
            let mut s = manufacturer.clone();
            push_str(&mut s, " ");
            push_str(&mut s, model.as_str());
            Some(s)
        },
        (Some(manufacturer), None) => Some(manufacturer.clone()),
        (None, Some(model)) => Some(model.clone()),
        (None, None) => None,
    }
}

/// The name shown for a monitor.
pub fn monitor_label(monitor: &MonitorInfo) -> (r: String)
    ensures
        r@ == label_of(*monitor),
{
    match (&monitor.connector, monitor_description(monitor)) {
        (Some(connector), Some(description)) => {
            let mut s = connector.clone();
            push_str(&mut s, " — ");
            push_str(&mut s, description.as_str());
            s
        },
        (Some(connector), None) => connector.clone(),
        (None, Some(description)) => description,
        (None, None) => "unknown monitor".to_owned(),
    }
}

/// The texts a monitor can be found by.
pub fn monitor_search_terms(monitor: &MonitorInfo) -> (r: Vec<String>)
    ensures
        r@.map_values(|s: String| s@) == search_terms_of(*monitor),
{
    let mut terms: Vec<String> = Vec::new();
    match copy_text(&monitor.connector) {
        Some(s) => terms.push(s),
        None => {},
    }
    match monitor_description(monitor) {
        Some(s) => terms.push(s),
        None => {},
    }
    match copy_text(&monitor.manufacturer) {
        Some(s) => terms.push(s),
        None => {},
    }
    match copy_text(&monitor.model) {
        Some(s) => terms.push(s),
        None => {},
    }
    assert(terms@.map_values(|s: String| s@) =~= search_terms_of(*monitor));
    terms
}

/// Whether one of a monitor's texts contains `needle`, in any ASCII case.
fn monitor_found_by(monitor: &MonitorInfo, needle: &[char]) -> (r: bool)
    requires
        needle@ == lower_text(needle@),
    ensures
        r == found_by(*monitor, needle@),
{
    let terms = monitor_search_terms(monitor);
    let ghost views = terms@.map_values(|s: String| s@);
    let mut k: usize = 0;
    while k < terms.len()
        invariant
            k <= terms@.len(),
            views == terms@.map_values(|s: String| s@),
            views == search_terms_of(*monitor),
            forall|m: int| 0 <= m < k ==> !contains_text(lower_text(#[trigger] views[m]), needle@),
        decreases terms@.len() - k,
    {
        let lower = lower_chars(chars_of(terms[k].as_str()).as_slice());
        assert(views[k as int] == terms@[k as int]@);
        if chars_contain(lower.as_slice(), needle) {
            return true;
        }
        k = k + 1;
    }
    false
}

/// The first monitor of a kind, built in or not.
fn first_of_kind(monitors: &Vec<MonitorInfo>, internal: bool) -> (r: Option<usize>)
    ensures
        match r {
            Some(i) => first_by_kind(monitors@, internal, monitors@.len()) == Some(i as int) && i
                < monitors@.len(),
            None => first_by_kind(monitors@, internal, monitors@.len()) is None,
        },
{
    let mut i: usize = 0;
    while i < monitors.len()
        invariant
            i <= monitors@.len(),
            first_by_kind(monitors@, internal, i as nat) is None,
        decreases monitors@.len() - i,
    {
        if monitor_is_internal(&monitors[i]) == internal {
            proof {
                lemma_first_by_kind_stays(monitors@, internal, (i + 1) as nat, monitors@.len());
            }
            return Some(i);
        }
        i = i + 1;
    }
    None
}

proof fn lemma_first_by_kind_stays(ms: Seq<MonitorInfo>, internal: bool, m: nat, n: nat)
    requires
        m <= n,
        first_by_kind(ms, internal, m) is Some,
    ensures
        first_by_kind(ms, internal, n) == first_by_kind(ms, internal, m),
    decreases n - m,
{
    if m < n {
        lemma_first_by_kind_stays(ms, internal, m, (n - 1) as nat);
    }
}

proof fn lemma_first_found_stays(ms: Seq<MonitorInfo>, needle: Seq<char>, m: nat, n: nat)
    requires
        m <= n,
        first_found(ms, needle, m) is Some,
    ensures
        first_found(ms, needle, n) == first_found(ms, needle, m),
    decreases n - m,
{
    if m < n {
        lemma_first_found_stays(ms, needle, m, (n - 1) as nat);
    }
}

proof fn lemma_lower_idempotent(s: Seq<char>)
    ensures
        lower_text(lower_text(s)) == lower_text(s),
{
    assert(lower_text(lower_text(s)) =~= lower_text(s));
}

/// The first monitor found by `needle`.
fn first_found_by(monitors: &Vec<MonitorInfo>, needle: &[char]) -> (r: Option<usize>)
    requires
        needle@ == lower_text(needle@),
    ensures
        match r {
            Some(i) => first_found(monitors@, needle@, monitors@.len()) == Some(i as int) && i
                < monitors@.len(),
            None => first_found(monitors@, needle@, monitors@.len()) is None,
        },
{
    let mut i: usize = 0;
    while i < monitors.len()
        invariant
            i <= monitors@.len(),
            needle@ == lower_text(needle@),
            first_found(monitors@, needle@, i as nat) is None,
        decreases monitors@.len() - i,
    {
        if monitor_found_by(&monitors[i], needle) {
            proof {
                lemma_first_found_stays(monitors@, needle@, (i + 1) as nat, monitors@.len());
            }
            return Some(i);
        }
        i = i + 1;
    }
    None
}

/// The position, among `monitors` (in the display's order), of the
/// monitor that `selector` picks, if any.
pub fn select_monitor(monitors: &Vec<MonitorInfo>, selector: &str) -> (r: Option<usize>)
    ensures
        match selected_monitor(monitors@, selector@) {
            Some(i) => r == Some(i as usize) && i < monitors@.len(),
            None => r is None,
        },
{
    if monitors.len() == 0 {
        return None;
    }
    let is_auto = equal_ignore_ascii_case(selector, "auto");
    let is_internal = equal_ignore_ascii_case(selector, "internal");
    if is_auto || is_internal {
        let internal = first_of_kind(monitors, true);
        if is_internal {
            return internal;
        }
        return match internal {
            Some(i) => Some(i),
            None => Some(0),
        };
    }
    if equal_ignore_ascii_case(selector, "external") {
        return match first_of_kind(monitors, false) {
            Some(i) => Some(i),
            None => Some(0),
        };
    }
    let t = trim_chars(chars_of(selector).as_slice());
    let digits = if t.len() > 0 && t[0] == '#' {
        sub_chars(t.as_slice(), 1, t.len())
    } else {
        sub_chars(t.as_slice(), 0, t.len())
    };
    assert(digits@ =~= index_text(t@));
    match parse_u64_text(digits.as_slice()) {
        Some(n) => {
            if n <= usize::MAX as u64 {
                let index = n as usize;
                return if index < monitors.len() {
                    Some(index)
                } else {
                    None
                };
            }
        },
        None => {},
    }
    let needle = lower_chars(t.as_slice());
    proof {
        lemma_lower_idempotent(t@);
    }
    first_found_by(monitors, needle.as_slice())
}

} // verus!
