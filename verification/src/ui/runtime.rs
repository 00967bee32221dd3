//! The decisions of the refresh loop: what to ask the player for, when to
//! give up on a vanished player, when to reload artwork or animate text,
//! how the playback clock follows the player, and what the lyrics panel
//! shows. Times are microseconds on a monotonic clock that the caller reads.
use vstd::prelude::*;
use crate::control::ControlCommand;
use crate::lyrics::lrc::{in_time_order, lines_view, SyncedLyrics};
use crate::model::config::{Config, Transition};
use crate::model::lyrics::LyricsLayout;
use crate::model::media::{MediaState, PlaybackStatus, TrackMetadata};
use crate::text::{chars_equal, chars_of, sat_mul};
use crate::timestamp::{
    format_timestamp_microseconds, parse_timestamp_microseconds, timestamp_seconds_value,
    timestamp_text,
};
use crate::ui::playback_clock::{
    clamped_position_at, clock_goes_on, identity_text, PlaybackClock, TrackIdentity,
};

verus! {

/// How long a player may be missing before the overlay is cleared.
pub const MEDIA_MISS_GRACE_MICROSECONDS: u64 = 5_000_000;

/// How long a one-line lyrics scroll takes.
pub const LYRICS_SCROLL_DURATION_MICROSECONDS: u64 = 240_000;

/// What the refresh asks the player for.
#[derive(Clone, Copy, Debug, PartialEq, Eq, Structural)]
pub struct TrackDataWanted {
    /// The metadata bands are shown.
    pub metadata: bool,
    /// The lyrics panel exists and is visible.
    pub lyrics: bool,
}

/// Metadata is wanted when the bands are on and one section is; lyrics
/// when the panel exists and is visible.
pub open spec fn wanted_data(c: Config, lyrics_visible: bool, has_lyrics_panel: bool) -> TrackDataWanted {
    TrackDataWanted {
        metadata: c.metadata.enabled && (c.metadata.top.enabled || c.metadata.left.enabled),
        lyrics: lyrics_visible && has_lyrics_panel,
    }
}

/// What the refresh needs of the player's track.
pub fn track_data_wanted(config: &Config, lyrics_visible: bool, has_lyrics_panel: bool) -> (r: TrackDataWanted)
    ensures
        r == wanted_data(*config, lyrics_visible, has_lyrics_panel),
{
    TrackDataWanted {
        metadata: config.metadata.enabled && (config.metadata.top.enabled
            || config.metadata.left.enabled),
        lyrics: lyrics_visible && has_lyrics_panel,
    }
}

/// When the player is found missing at `now`: the time it has been missing
/// since, and whether the grace period is over.
pub open spec fn miss_step(miss_since: Option<u64>, now: u64) -> (Option<u64>, bool) {
    match miss_since {
        Some(started) => (
            Some(started),
            now >= started && now - started >= MEDIA_MISS_GRACE_MICROSECONDS,
        ),
        None => (Some(now), false),
    }
}

/// Notes that no player to show was found at `now`; says whether the
/// overlay should now be cleared.
pub fn media_miss_step(miss_since: Option<u64>, now: u64) -> (r: (Option<u64>, bool))
    ensures
        r == miss_step(miss_since, now),
{
    match miss_since {
        Some(started) => (
            Some(started),
            now.saturating_sub(started) >= MEDIA_MISS_GRACE_MICROSECONDS,
        ),
        None => (Some(now), false),
    }
}

/// Whether the artwork at `art_url` must be fetched: it is not the one
/// shown.
pub fn artwork_needs_reload(current_url: Option<&str>, art_url: &str) -> (r: bool)
    ensures
        r == match current_url {
            Some(u) => u@ != art_url@,
            None => true,
        },
{
    match current_url {
        Some(current) => {
            let a = chars_of(current);
            let b = chars_of(art_url);
            !chars_equal(a.as_slice(), b.as_slice())
        },
        None => true,
    }
}

/// Whether the metadata text should be animated: the track is not the one
/// shown before. The track shown is updated.
pub fn should_animate_metadata(last_track: &mut Option<TrackIdentity>, art_url: Option<&str>, metadata: &TrackMetadata) -> (r: bool)
    ensures
        ({
            let id = identity_text(
                match art_url {
                    Some(u) => Some(u@),
                    None => None,
                },
                *metadata,
            );
            &&& r == !(*old(last_track) matches Some(p) && p.0@ == id)
            &&& *final(last_track) matches Some(p) && p.0@ == id
        }),
{
    let identity = TrackIdentity::from_metadata(art_url, metadata);
    let unchanged = match last_track {
        Some(previous) => previous.same_as(&identity),
        None => false,
    };
    if unchanged {
        false
    } else {
        *last_track = Some(identity);
        true
    }
}

/// A time the player reported: in microseconds, or else as text.
pub open spec fn reported_time(microseconds: Option<u64>, text: Seq<char>) -> Option<u64> {
    match microseconds {
        Some(us) => Some(us),
        None => match timestamp_seconds_value(text) {
            Some(s) => Some(sat_mul(s as nat, 1_000_000) as u64),
            None => None,
        },
    }
}

/// The reported position.
pub fn reported_position(metadata: &TrackMetadata) -> (r: Option<u64>)
    ensures
        r == reported_time(metadata.position_microseconds, metadata.position@),
{
    match metadata.position_microseconds {
        Some(us) => Some(us),
        None => parse_timestamp_microseconds(metadata.position.as_str()),
    }
}

/// The reported length.
pub fn reported_length(metadata: &TrackMetadata) -> (r: Option<u64>)
    ensures
        r == reported_time(metadata.length_microseconds, metadata.length@),
{
    match metadata.length_microseconds {
        Some(us) => Some(us),
        None => parse_timestamp_microseconds(metadata.length.as_str()),
    }
}

pub open spec fn optional_text(o: Option<String>) -> Option<Seq<char>> {
    match o {
        Some(s) => Some(s@),
        None => None,
    }
}

/// The playback clock after a report of `state` at `now`: none unless the
/// player plays and says where; otherwise the clock brought in line with
/// the report (see `PlaybackClock::sync`).
pub fn next_playback_clock(existing: Option<PlaybackClock>, state: &MediaState, now: u64) -> (r: Option<PlaybackClock>)
    ensures
        state.status != PlaybackStatus::Playing ==> r is None,
        reported_time(state.metadata.position_microseconds, state.metadata.position@) is None
            ==> r is None,
        reported_time(state.metadata.position_microseconds, state.metadata.position@) matches Some(
            anchor,
        ) ==> (state.status == PlaybackStatus::Playing ==> {
            let id = identity_text(optional_text(state.art_url), state.metadata);
            let length = reported_time(state.metadata.length_microseconds, state.metadata.length@);
            r matches Some(c) && c.length_microseconds == length && if clock_goes_on(
                existing,
                id,
                anchor,
                now,
            ) {
                c.track.0@ == existing->0.track.0@ && c.anchor_position_microseconds
                    == existing->0.anchor_position_microseconds && c.anchor_time_microseconds
                    == existing->0.anchor_time_microseconds
            } else {
                c.track.0@ == id && c.anchor_position_microseconds == anchor
                    && c.anchor_time_microseconds == now
            }
        }),
{
    if state.status != PlaybackStatus::Playing {
        return None;
    }
    let anchor = match reported_position(&state.metadata) {
        Some(a) => a,
        None => return None,
    };
    let length = reported_length(&state.metadata);
    let art_url = match &state.art_url {
        Some(u) => Some(u.as_str()),
        None => None,
    };
    let track = TrackIdentity::from_metadata(art_url, &state.metadata);
    Some(PlaybackClock::sync(existing, track, anchor, length, now))
}

/// Whether the lyrics panel is visible after a command.
pub open spec fn visibility_after(command: ControlCommand, visible: bool) -> bool {
    match command {
        ControlCommand::On => true,
        ControlCommand::Off => false,
        ControlCommand::Toggle => !visible,
    }
}

/// The lyrics panel's visibility after a control command.
pub fn lyrics_visibility_after(command: ControlCommand, visible: bool) -> (r: bool)
    ensures
        r == visibility_after(command, visible),
{
    match command {
        ControlCommand::On => true,
        ControlCommand::Off => false,
        ControlCommand::Toggle => !visible,
    }
}

/// What the lyrics panel shows.
#[derive(Clone, Copy, Debug, PartialEq, Eq, Structural)]
pub enum LyricsView {
    /// The line at this index, with its neighbours.
    Line(usize),
    /// A note, while the first line has not come yet at the start.
    Waiting,
    /// Nothing; the panel is faded when it says so.
    Blank { faded: bool },
}

/// What the lyrics panel shows at `position`: the current line of the
/// lyrics when there is one; before the first line, a note at the very
/// start and nothing later; without lyrics, nothing, the multi-line panel
/// fading when the lyrics are known to be missing.
pub fn lyrics_view(lyrics: Option<&SyncedLyrics>, missing: bool, layout: LyricsLayout, position: u64) -> (r: LyricsView)
    ensures
        lyrics is None ==> r == (LyricsView::Blank {
            faded: missing && layout == LyricsLayout::MultiLine,
        }),
        lyrics matches Some(l) ==> match r {
            LyricsView::Line(i) => i < l.lines@.len() && (in_time_order(lines_view(l.lines@))
                ==> l.lines@[i as int].at_microseconds <= position && forall|k: int|
                i < k < l.lines@.len() ==> l.lines@[k].at_microseconds > position),
            LyricsView::Waiting => position == 0 && (in_time_order(lines_view(l.lines@))
                ==> forall|k: int|
                0 <= k < l.lines@.len() ==> l.lines@[k].at_microseconds > position),
            LyricsView::Blank { faded } => !faded && position != 0 && (in_time_order(
                lines_view(l.lines@),
            ) ==> forall|k: int|
                0 <= k < l.lines@.len() ==> l.lines@[k].at_microseconds > position),
        },
{
    match lyrics {
        Some(l) => match l.current_line_index(position) {
            Some(i) => LyricsView::Line(i),
            None => if position == 0 {
                LyricsView::Waiting
            } else {
                LyricsView::Blank { faded: false }
            },
        },
        None => LyricsView::Blank { faded: missing && layout == LyricsLayout::MultiLine },
    }
}

/// The line of the lyrics shown in a slot of the multi-line panel, the
/// current line being in the centre slot; none above the first line.
pub fn slot_line_index(current_index: usize, slot: usize, center_slot: usize) -> (r: Option<usize>)
    requires
        current_index + slot <= usize::MAX,
    ensures
        r == (if current_index + slot >= center_slot {
            Some((current_index + slot - center_slot) as usize)
        } else {
            None::<usize>
        }),
{
    if current_index + slot >= center_slot {
        Some(current_index + slot - center_slot)
    } else {
        None
    }
}

/// A one-line scroll of the multi-line panel in progress.
#[derive(Clone, Copy, Debug, PartialEq, Eq, Structural)]
pub struct ScrollAnimation {
    pub from_index: usize,
    pub to_index: usize,
    pub started_at: u64,
}

/// Where the scroll of the panel stands after the current line became
/// `current`: the current line kept, the animation running, and, while it
/// runs, how long it has run and which way (`1` down, `-1` up).
pub open spec fn scroll_state(
    smooth: bool,
    previous: Option<usize>,
    animation: Option<ScrollAnimation>,
    current: usize,
    now: u64,
) -> (Option<usize>, Option<ScrollAnimation>, Option<(u64, int)>) {
    if !smooth {
        (Some(current), None, None)
    } else {
        let anim = if previous != Some(current) {
            match previous {
                Some(p) => if current == p + 1 || p == current + 1 {
                    Some(ScrollAnimation { from_index: p, to_index: current, started_at: now })
                } else {
                    None
                },
                None => None,
            }
        } else {
            animation
        };
        match anim {
            None => (Some(current), None, None),
            Some(a) => if a.to_index != current {
                (Some(current), None, None)
            } else {
                let elapsed: int = if now >= a.started_at {
                    now - a.started_at
                } else {
                    0
                };
                if elapsed >= LYRICS_SCROLL_DURATION_MICROSECONDS {
                    (Some(current), None, None)
                } else {
                    (
                        Some(current),
                        Some(a),
                        Some(
                            (
                                elapsed as u64,
                                if a.to_index > a.from_index {
                                    1int
                                } else if a.to_index < a.from_index {
                                    -1int
                                } else {
                                    0int
                                },
                            ),
                        ),
                    )
                }
            },
        }
    }
}

/// Follows the current lyrics line with the scroll animation; the offset
/// itself is drawn by the caller from the time the animation has run.
pub fn scroll_shift_state(
    smooth: bool,
    previous: Option<usize>,
    animation: Option<ScrollAnimation>,
    current: usize,
    now: u64,
) -> (r: (Option<usize>, Option<ScrollAnimation>, Option<(u64, i8)>))
    ensures
        ({
            let s = scroll_state(smooth, previous, animation, current, now);
            &&& r.0 == s.0
            &&& r.1 == s.1
            &&& match (r.2, s.2) {
                (Some((e, d)), Some((se, sd))) => e == se && d as int == sd,
                (None, None) => true,
                _ => false,
            }
        }),
{
    if !smooth {
        return (Some(current), None, None);
    }
    let anim = if previous != Some(current) {
        match previous {
            Some(p) => if (p < usize::MAX && current == p + 1) || (current < usize::MAX && p
                == current + 1) {
                Some(ScrollAnimation { from_index: p, to_index: current, started_at: now })
            } else {
                None
            },
            None => None,
        }
    } else {
        animation
    };
    match anim {
        None => (Some(current), None, None),
        Some(a) => {
            if a.to_index != current {
                return (Some(current), None, None);
            }
            let elapsed = now.saturating_sub(a.started_at);
            if elapsed >= LYRICS_SCROLL_DURATION_MICROSECONDS {
                return (Some(current), None, None);
            }
            let direction: i8 = if a.to_index > a.from_index {
                1
            } else if a.to_index < a.from_index {
                -1
            } else {
                0
            };
            (Some(current), Some(a), Some((elapsed, direction)))
        },
    }
}

/// What a tick of the position display does.
pub enum PositionTick {
    /// Nothing changes.
    Skip,
    /// The shown position is current; only the lyrics follow it.
    Lyrics(u64),
    /// The position moved on: its text and value.
    Update(String, u64),
}

/// A tick of the position display at `now`: nothing unless something
/// shows the position, a clock runs and the last state is of the clock's
/// track and playing; then the clock's position, as a new text when it
/// differs from the one shown.
pub fn position_tick(wanted: TrackDataWanted, clock: Option<&PlaybackClock>, state: Option<&MediaState>, now: u64) -> (r: PositionTick)
    ensures
        ({
            let shown = wanted.metadata || wanted.lyrics;
            let runs = clock matches Some(c) && state matches Some(s) && s.status
                == PlaybackStatus::Playing && identity_text(optional_text(s.art_url), s.metadata)
                == c.track.0@;
            &&& (!shown || !runs) ==> r is Skip
            &&& (shown && runs) ==> ({
                let pos = clamped_position_at(*clock->0, now);
                let text = timestamp_text(pos);
                if state->0.metadata.position@ == text {
                    if wanted.lyrics {
                        r == PositionTick::Lyrics(pos as u64)
                    } else {
                        r is Skip
                    }
                } else {
                    r matches PositionTick::Update(t, p) && t@ == text && p == pos
                }
            })
        }),
{
    if !wanted.metadata && !wanted.lyrics {
        return PositionTick::Skip;
    }
    let c = match clock {
        Some(c) => c,
        None => return PositionTick::Skip,
    };
    let s = match state {
        Some(s) => s,
        None => return PositionTick::Skip,
    };
    if s.status != PlaybackStatus::Playing {
        return PositionTick::Skip;
    }
    let art_url = match &s.art_url {
        Some(u) => Some(u.as_str()),
        None => None,
    };
    let identity = TrackIdentity::from_metadata(art_url, &s.metadata);
    if !identity.same_as(c.track()) {
        return PositionTick::Skip;
    }
    let position = c.clamped_position_microseconds_now(now);
    let text = format_timestamp_microseconds(position);
    let a = chars_of(s.metadata.position.as_str());
    let b = chars_of(text.as_str());
    if chars_equal(a.as_slice(), b.as_slice()) {
        if wanted.lyrics {
            PositionTick::Lyrics(position)
        } else {
            PositionTick::Skip
        }
    } else {
        PositionTick::Update(text, position)
    }
}

/// The position the lyrics follow between reports: the clock's, or else
/// the last reported one, or the start.
pub fn lyrics_position(clock: Option<&PlaybackClock>, state: Option<&MediaState>, now: u64) -> (r: Option<u64>)
    ensures
        clock matches Some(c) ==> r == Some(clamped_position_at(*c, now) as u64),
        clock is None && state is None ==> r is None,
        state matches Some(s) ==> (clock is None ==> r == Some(
            match reported_time(s.metadata.position_microseconds, s.metadata.position@) {
                Some(p) => p,
                None => 0,
            },
        )),
{
    match clock {
        Some(c) => Some(c.clamped_position_microseconds_now(now)),
        None => match state {
            Some(s) => match reported_position(&s.metadata) {
                Some(p) => Some(p),
                None => Some(0),
            },
            None => None,
        },
    }
}

/// Whether lyrics must be looked up: the track's key is not the one
/// looked up last.
pub fn lyrics_need_lookup(previous_key: Option<&str>, key: &str) -> (r: bool)
    ensures
        r == match previous_key {
            Some(p) => p@ != key@,
            None => true,
        },
{
    match previous_key {
        Some(p) => {
            let a = chars_of(p);
            let b = chars_of(key);
            !chars_equal(a.as_slice(), b.as_slice())
        },
        None => true,
    }
}

/// A player that stays missing is cleared once the grace period has run,
/// and not before.
pub proof fn law_missing_player_grace(started: u64, now: u64)
    ensures
        miss_step(None, started) == (Some(started), false),
        miss_step(Some(started), now).1 <==> (now >= started && now - started
            >= MEDIA_MISS_GRACE_MICROSECONDS),
{
}

/// Toggling the lyrics twice leaves them as they were; on and off set them
/// whatever they were.
pub proof fn law_lyrics_toggle_involution(visible: bool)
    ensures
        visibility_after(ControlCommand::Toggle, visibility_after(ControlCommand::Toggle, visible))
            == visible,
        visibility_after(ControlCommand::On, visible),
        !visibility_after(ControlCommand::Off, visible),
{
}

/// Whether new artwork comes in with the configured transition: only when
/// artwork is shown already, a transition is chosen and it takes time.
pub fn artwork_transition_runs(config: &Config, has_current_artwork: bool) -> (r: bool)
    ensures
        r == (has_current_artwork && config.transition != Transition::Off && config.transition_ms
            != 0),
{
    has_current_artwork && config.transition != Transition::Off && config.transition_ms != 0
}

/// What a refresh learned about the cover it could show.
#[derive(Clone, Copy, Debug, PartialEq, Eq, Structural)]
pub enum CoverEvent {
    /// A player to show reports no artwork.
    NoArtwork,
    /// A player to show reports the artwork already shown.
    SameArtwork,
    /// A player to show reports new artwork, and it was downloaded.
    Downloaded,
    /// A player to show reports new artwork, and the download failed.
    DownloadFailed,
    /// No player to show; `grace_over` once it has been missing for the
    /// whole grace period.
    NoPlayer { grace_over: bool },
}

/// What the window does with the cover after a refresh.
#[derive(Clone, Copy, Debug, PartialEq, Eq, Structural)]
pub enum CoverAction {
    /// Show the cover that is now current.
    Show,
    /// Clear the cover, the text and the lyrics; hide the window unless the
    /// splash screen holds it open.
    Clear { hide_window: bool },
}

/// Whether a cover is shown after `event`: new or unchanged artwork is;
/// without it the previous cover is kept if there is one, and once a
/// missing player's grace period is over nothing is kept.
pub open spec fn cover_shown_after(had_cover: bool, event: CoverEvent) -> bool {
    match event {
        CoverEvent::SameArtwork | CoverEvent::Downloaded => true,
        CoverEvent::NoArtwork | CoverEvent::DownloadFailed => had_cover,
        CoverEvent::NoPlayer { grace_over } => had_cover && !grace_over,
    }
}

/// Decides the cover after a refresh, from whether a cover was shown, what
/// the refresh learned, and whether the splash screen is up.
pub fn cover_step(had_cover: bool, event: CoverEvent, splash_active: bool) -> (r: CoverAction)
    ensures
        r == if cover_shown_after(had_cover, event) {
            CoverAction::Show
        } else {
            CoverAction::Clear { hide_window: !splash_active }
        },
{
    let keep = match event {
        CoverEvent::SameArtwork | CoverEvent::Downloaded => true,
        CoverEvent::NoArtwork | CoverEvent::DownloadFailed => had_cover,
        CoverEvent::NoPlayer { grace_over } => had_cover && !grace_over,
    };
    if keep {
        CoverAction::Show
    } else {
        CoverAction::Clear { hide_window: !splash_active }
    }
}

/// Missing artwork or a failed download keeps the cover exactly when one is
/// shown; a missing player keeps it only if one is shown, and not once the
/// grace period is over; downloaded artwork is always shown.
pub proof fn law_cover_kept_only_when_shown(had_cover: bool, grace_over: bool)
    ensures
        cover_shown_after(had_cover, CoverEvent::DownloadFailed) == had_cover,
        cover_shown_after(had_cover, CoverEvent::NoArtwork) == had_cover,
        cover_shown_after(had_cover, CoverEvent::NoPlayer { grace_over }) ==> had_cover,
        !cover_shown_after(had_cover, CoverEvent::NoPlayer { grace_over: true }),
        cover_shown_after(had_cover, CoverEvent::Downloaded),
{
}

} // verus!
