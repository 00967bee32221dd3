//! Choosing the player whose artwork is shown: by name, or automatically
//! the one that plays, preferring one with artwork.
use vstd::prelude::*;
use crate::model::media::{status_rank, MediaState, PlaybackStatus, TrackMetadata};
use crate::mpris::{in_name_order, mpris_prefix, PlayerEntry};
use crate::text::{eq_ignore_ascii_case, equal_ignore_ascii_case, push_str};

verus! {

/// Whether a player answers to `selector`: its short or its bus name,
/// compared without regard to ASCII case.
pub open spec fn selector_matches(name: Seq<char>, selector: Seq<char>) -> bool {
    eq_ignore_ascii_case(name, selector) || eq_ignore_ascii_case(mpris_prefix() + name, selector)
}

/// How much automatic selection wants a player: first by status, then by
/// whether it has artwork.
pub open spec fn auto_key(s: MediaState) -> int {
    2 * status_rank(s.status) + if s.art_url is Some {
        1int
    } else {
        0int
    }
}

/// Among the first `n` players, the last one that automatic selection
/// wants most.
pub open spec fn auto_choice(players: Seq<PlayerEntry>, n: nat) -> Option<int>
    decreases n,
{
    if n == 0 {
        None
    } else {
        match auto_choice(players, (n - 1) as nat) {
            None => Some(n - 1),
            Some(i) => if auto_key(players[n - 1].state) >= auto_key(players[i].state) {
                Some(n - 1)
            } else {
                Some(i)
            },
        }
    }
}

/// Among the first `n` players, the first that answers to `selector`.
pub open spec fn first_match(players: Seq<PlayerEntry>, selector: Seq<char>, n: nat) -> Option<int>
    decreases n,
{
    if n == 0 {
        None
    } else {
        match first_match(players, selector, (n - 1) as nat) {
            Some(i) => Some(i),
            None => if selector_matches(players[n - 1].name@, selector) {
                Some(n - 1)
            } else {
                None
            },
        }
    }
}

/// The player that `selector` picks: `auto` (in any case) picks
/// automatically, anything else by name.
pub open spec fn chosen_player(players: Seq<PlayerEntry>, selector: Seq<char>) -> Option<int> {
    if eq_ignore_ascii_case(selector, "auto"@) {
        auto_choice(players, players.len())
    } else {
        first_match(players, selector, players.len())
    }
}

/// Metadata with nothing in it.
pub open spec fn blank_metadata(m: TrackMetadata) -> bool {
    &&& m.artist@.len() == 0
    &&& m.title@.len() == 0
    &&& m.album@.len() == 0
    &&& m.track_number@.len() == 0
    &&& m.length@.len() == 0
    &&& m.length_microseconds is None
    &&& m.position@.len() == 0
    &&& m.position_microseconds is None
}

/// `r` is `s`, with its metadata left out unless asked for.
pub open spec fn reported_state(r: MediaState, s: MediaState, include_metadata: bool) -> bool {
    &&& r.status == s.status
    &&& r.art_url == s.art_url
    &&& if include_metadata {
        r.metadata == s.metadata
    } else {
        blank_metadata(r.metadata)
    }
}

/// Whether the player named `player_name` answers to `selector`.
pub fn selector_matches_player(player_name: &str, selector: &str) -> (r: bool)
    ensures
        r == selector_matches(player_name@, selector@),
{
    if equal_ignore_ascii_case(player_name, selector) {
        return true;
    }
    let mut full = "org.mpris.MediaPlayer2.".to_owned();
    push_str(&mut full, player_name);
    equal_ignore_ascii_case(full.as_str(), selector)
}

fn copy_text(o: &Option<String>) -> (r: Option<String>)
    ensures
        r == *o,
{
    match o {
        Some(s) => Some(s.clone()),
        None => None,
    }
}

fn copy_metadata(m: &TrackMetadata) -> (r: TrackMetadata)
    ensures
        r == *m,
{
    TrackMetadata {
        artist: m.artist.clone(),
        title: m.title.clone(),
        album: m.album.clone(),
        track_number: m.track_number.clone(),
        length: m.length.clone(),
        length_microseconds: m.length_microseconds,
        position: m.position.clone(),
        position_microseconds: m.position_microseconds,
    }
}

/// The index of the player that automatic selection picks.
fn auto_index(players: &Vec<PlayerEntry>) -> (r: Option<usize>)
    ensures
        match r {
            Some(i) => auto_choice(players@, players@.len()) == Some(i as int) && i < players@.len(),
            None => auto_choice(players@, players@.len()) is None,
        },
{
    let mut best: Option<usize> = None;
    let mut best_key: u8 = 0;
    let mut i: usize = 0;
    while i < players.len()
        invariant
            i <= players@.len(),
            match best {
                Some(b) => auto_choice(players@, i as nat) == Some(b as int) && b < i
                    && best_key == auto_key(players@[b as int].state),
                None => auto_choice(players@, i as nat) is None && i == 0,
            },
        decreases players@.len() - i,
    {
        let state = &players[i].state;
        let art: u8 = if state.art_url.is_some() {
            1
        } else {
            0
        };
        let key: u8 = 2 * state.status.auto_select_rank() + art;
        match best {
            None => {
                best = Some(i);
                best_key = key;
            },
            Some(_) => {
                if key >= best_key {
                    best = Some(i);
                    best_key = key;
                }
            },
        }
        i = i + 1;
    }
    best
}

/// The index of the first player that answers to `selector`.
fn match_index(players: &Vec<PlayerEntry>, selector: &str) -> (r: Option<usize>)
    ensures
        match r {
            Some(i) => first_match(players@, selector@, players@.len()) == Some(i as int) && i
                < players@.len(),
            None => first_match(players@, selector@, players@.len()) is None,
        },
{
    let mut i: usize = 0;
    while i < players.len()
        invariant
            i <= players@.len(),
            first_match(players@, selector@, i as nat) is None,
        decreases players@.len() - i,
    {
        if selector_matches_player(players[i].name.as_str(), selector) {
            proof {
                lemma_first_match_stays(players@, selector@, (i + 1) as nat, players@.len());
            }
            return Some(i);
        }
        i = i + 1;
    }
    None
}

/// Once a player answers, looking further does not change the choice.
proof fn lemma_first_match_stays(players: Seq<PlayerEntry>, selector: Seq<char>, m: nat, n: nat)
    requires
        m <= n,
        first_match(players, selector, m) is Some,
    ensures
        first_match(players, selector, n) == first_match(players, selector, m),
    decreases n - m,
{
    if m < n {
        lemma_first_match_stays(players, selector, m, (n - 1) as nat);
    }
}

/// The state of the player that `player` picks among `players` (a
/// snapshot of the bus, in name order), with its metadata left out unless
/// `include_metadata`; `None` when no player is picked.
pub fn query_player(players: &Vec<PlayerEntry>, player: &str, include_metadata: bool) -> (r: Option<MediaState>)
    requires
        in_name_order(players@),
    ensures
        match chosen_player(players@, player@) {
            Some(i) => r matches Some(s) && reported_state(s, players@[i].state, include_metadata),
            None => r is None,
        },
{
    let selected = if equal_ignore_ascii_case(player, "auto") {
        auto_index(players)
    } else {
        match_index(players, player)
    };
    match selected {
        Some(i) => {
            let state = &players[i].state;
            let metadata = if include_metadata {
                copy_metadata(&state.metadata)
            } else {
                TrackMetadata::default()
            };
            Some(MediaState { status: state.status, art_url: copy_text(&state.art_url), metadata })
        },
        None => None,
    }
}

/// Automatic selection picks, when there is any player, one that no other
/// player outranks: playing before paused before stopped, and with
/// artwork before without.
pub proof fn law_auto_choice_is_best(players: Seq<PlayerEntry>, n: nat)
    requires
        0 < n <= players.len(),
    ensures
        auto_choice(players, n) matches Some(i) && 0 <= i < n && forall|j: int|
            0 <= j < n ==> auto_key(#[trigger] players[j].state) <= auto_key(players[i].state),
    decreases n,
{
    if n == 1 {
        assert(auto_choice(players, 0) is None);
    } else {
        law_auto_choice_is_best(players, (n - 1) as nat);
        let i0 = auto_choice(players, (n - 1) as nat)->0;
        let i = auto_choice(players, n)->0;
        assert forall|j: int| 0 <= j < n implies auto_key(#[trigger] players[j].state) <= auto_key(
            players[i].state,
        ) by {
            if j < n - 1 {
                assert(auto_key(players[j].state) <= auto_key(players[i0].state));
            }
        }
    }
}

/// No player after the one automatic selection picks is wanted as much.
proof fn lemma_auto_choice_is_last_best(players: Seq<PlayerEntry>, n: nat)
    requires
        0 < n <= players.len(),
    ensures
        auto_choice(players, n) matches Some(i) && forall|j: int|
            i < j < n ==> auto_key(#[trigger] players[j].state) < auto_key(players[i].state),
    decreases n,
{
    if n == 1 {
        assert(auto_choice(players, 0) is None);
    } else {
        lemma_auto_choice_is_last_best(players, (n - 1) as nat);
        let i0 = auto_choice(players, (n - 1) as nat)->0;
        let i = auto_choice(players, n)->0;
        assert forall|j: int| i < j < n implies auto_key(#[trigger] players[j].state) < auto_key(
            players[i].state,
        ) by {
            if j < n - 1 {
                assert(i == i0);
            }
        }
    }
}

/// Automatic selection goes by playback status first: the player it picks
/// has a status that no other player's outranks (so a playing player is
/// picked whenever there is one), and artwork only decides between players
/// of the same status: there it picks one with artwork if any has it. Of
/// players that tie on both, it picks the last.
pub proof fn law_auto_choice_status_first(players: Seq<PlayerEntry>, n: nat)
    requires
        0 < n <= players.len(),
    ensures
        auto_choice(players, n) matches Some(i) && 0 <= i < n && (forall|j: int|
            0 <= j < n ==> status_rank(#[trigger] players[j].state.status) <= status_rank(
                players[i].state.status,
            )) && (forall|j: int|
            0 <= j < n && #[trigger] players[j].state.status == PlaybackStatus::Playing
                ==> players[i].state.status == PlaybackStatus::Playing) && (forall|j: int|
            0 <= j < n && #[trigger] players[j].state.status == players[i].state.status
                && players[j].state.art_url is Some ==> players[i].state.art_url is Some) && (forall|
            j: int,
        |
            i < j < n ==> status_rank(#[trigger] players[j].state.status) < status_rank(
                players[i].state.status,
            ) || (players[j].state.status == players[i].state.status
                && players[j].state.art_url is None && players[i].state.art_url is Some)),
{
    law_auto_choice_is_best(players, n);
    lemma_auto_choice_is_last_best(players, n);
    let i = auto_choice(players, n)->0;
    assert forall|j: int| 0 <= j < n implies status_rank(#[trigger] players[j].state.status)
        <= status_rank(players[i].state.status) && (players[j].state.status
        == players[i].state.status && players[j].state.art_url is Some
        ==> players[i].state.art_url is Some) by {
        assert(auto_key(players[j].state) <= auto_key(players[i].state));
    }
    assert forall|j: int| i < j < n implies status_rank(#[trigger] players[j].state.status)
        < status_rank(players[i].state.status) || (players[j].state.status
        == players[i].state.status && players[j].state.art_url is None
        && players[i].state.art_url is Some) by {
        assert(auto_key(players[j].state) < auto_key(players[i].state));
        if status_rank(players[j].state.status) == status_rank(players[i].state.status) {
            assert(players[j].state.status == players[i].state.status);
        }
    }
    assert forall|j: int|
        0 <= j < n && #[trigger] players[j].state.status == PlaybackStatus::Playing implies players[i].state.status
        == PlaybackStatus::Playing by {
        assert(status_rank(players[j].state.status) <= status_rank(players[i].state.status));
    }
}

/// A player answers to its own name and to its bus name, in any ASCII case.
pub proof fn law_selector_matches_own_names(name: Seq<char>)
    ensures
        selector_matches(name, name),
        selector_matches(name, mpris_prefix() + name),
{
}

} // verus!
