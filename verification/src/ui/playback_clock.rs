//! A clock that runs the playback position on between the players' reports,
//! so that synced lyrics move smoothly. Times are microseconds on a
//! monotonic clock that the caller reads.
use vstd::prelude::*;
use crate::model::media::TrackMetadata;
use crate::text::{chars_equal, chars_of, push_str, sat_add};

verus! {

/// How far a report may stray from the running clock before the clock is
/// set again from it.
pub const CLOCK_REANCHOR_DRIFT_MICROSECONDS: u64 = 400_000;

/// What identifies a track: its metadata and artwork URL, joined.
#[derive(Clone, Debug)]
pub struct TrackIdentity(pub String);

/// The unit separator that joins the parts of a track identity.
pub open spec fn unit_separator() -> Seq<char> {
    seq!['\u{1f}']
}

/// The text of a track identity.
pub open spec fn identity_text(art_url: Option<Seq<char>>, m: TrackMetadata) -> Seq<char> {
    let art = match art_url {
        Some(u) => u,
        None => Seq::empty(),
    };
    m.artist@ + unit_separator() + m.title@ + unit_separator() + m.album@ + unit_separator()
        + m.track_number@ + unit_separator() + m.length@ + unit_separator() + art
}

impl TrackIdentity {
    /// The identity of the track that `metadata` and `art_url` describe.
    pub fn from_metadata(art_url: Option<&str>, metadata: &TrackMetadata) -> (r: Self)
        ensures
            r.0@ == identity_text(
                match art_url {
                    Some(u) => Some(u@),
                    None => None,
                },
                *metadata,
            ),
    {
        let mut s = String::new();
        push_str(&mut s, metadata.artist.as_str());
        s.push('\u{1f}');
        push_str(&mut s, metadata.title.as_str());
        s.push('\u{1f}');
        push_str(&mut s, metadata.album.as_str());
        s.push('\u{1f}');
        push_str(&mut s, metadata.track_number.as_str());
        s.push('\u{1f}');
        push_str(&mut s, metadata.length.as_str());
        s.push('\u{1f}');
        match art_url {
            Some(u) => push_str(&mut s, u),
            None => {},
        }
        assert(s@ =~= identity_text(
            match art_url {
                Some(u) => Some(u@),
                None => None,
            },
            *metadata,
        ));
        TrackIdentity(s)
    }

    /// Whether two identities name the same track.
    pub fn same_as(&self, other: &TrackIdentity) -> (r: bool)
        ensures
            r == (self.0@ == other.0@),
    {
        let a = chars_of(self.0.as_str());
        let b = chars_of(other.0.as_str());
        chars_equal(a.as_slice(), b.as_slice())
    }

    fn duplicate(&self) -> (r: TrackIdentity)
        ensures
            r.0@ == self.0@,
    {
        TrackIdentity(self.0.clone())
    }
}

/// The playback position of a track, running on from the last report.
#[derive(Clone, Debug)]
pub struct PlaybackClock {
    pub track: TrackIdentity,
    pub anchor_position_microseconds: u64,
    pub anchor_time_microseconds: u64,
    pub length_microseconds: Option<u64>,
}

/// The time since `since`, or none if `now` is not later.
pub open spec fn elapsed(since: u64, now: u64) -> nat {
    if now >= since {
        (now - since) as nat
    } else {
        0
    }
}

/// The position that the clock shows at `now`, saturating at `u64::MAX`.
pub open spec fn position_at(c: PlaybackClock, now: u64) -> nat {
    sat_add(c.anchor_position_microseconds as nat, elapsed(c.anchor_time_microseconds, now))
}

/// That position, no further than the track's length when it is known.
pub open spec fn clamped_position_at(c: PlaybackClock, now: u64) -> nat {
    match c.length_microseconds {
        Some(len) => if position_at(c, now) <= len {
            position_at(c, now)
        } else {
            len as nat
        },
        None => position_at(c, now),
    }
}

/// How far apart two positions are.
pub open spec fn distance(a: nat, b: nat) -> nat {
    if a >= b {
        (a - b) as nat
    } else {
        (b - a) as nat
    }
}

/// Whether `existing` goes on, for a report on `track` at `position` made
/// at `now`: it is the same track and its position strays no more than
/// the allowed drift.
pub open spec fn clock_goes_on(existing: Option<PlaybackClock>, track: Seq<char>, position: u64, now: u64) -> bool {
    match existing {
        Some(e) => e.track.0@ == track && distance(position_at(e, now), position as nat)
            <= CLOCK_REANCHOR_DRIFT_MICROSECONDS,
        None => false,
    }
}

impl PlaybackClock {
    /// The track the clock runs for.
    pub fn track(&self) -> (r: &TrackIdentity)
        ensures
            r == &self.track,
    {
        &self.track
    }

    /// Brings the clock in line with a player's report on `track` at
    /// `anchor_position_microseconds`, made at `now_microseconds`: an
    /// existing clock for the same track that has not strayed goes on, with
    /// the reported length; otherwise the clock starts again from the report.
    pub fn sync(
        existing: Option<PlaybackClock>,
        track: TrackIdentity,
        anchor_position_microseconds: u64,
        length_microseconds: Option<u64>,
        now_microseconds: u64,
    ) -> (r: PlaybackClock)
        ensures
            if clock_goes_on(existing, track.0@, anchor_position_microseconds, now_microseconds) {
                &&& r.track.0@ == existing->0.track.0@
                &&& r.anchor_position_microseconds == existing->0.anchor_position_microseconds
                &&& r.anchor_time_microseconds == existing->0.anchor_time_microseconds
                &&& r.length_microseconds == length_microseconds
            } else {
                &&& r.track.0@ == track.0@
                &&& r.anchor_position_microseconds == anchor_position_microseconds
                &&& r.anchor_time_microseconds == now_microseconds
                &&& r.length_microseconds == length_microseconds
            },
    {
        match existing {
            Some(e) => {
                if e.track.same_as(&track) {
                    let now = e.position_microseconds_now(now_microseconds);
                    let drift = if now >= anchor_position_microseconds {
                        now - anchor_position_microseconds
                    } else {
                        anchor_position_microseconds - now
                    };
                    if drift <= CLOCK_REANCHOR_DRIFT_MICROSECONDS {
                        return PlaybackClock {
                            track: e.track.duplicate(),
                            anchor_position_microseconds: e.anchor_position_microseconds,
                            anchor_time_microseconds: e.anchor_time_microseconds,
                            length_microseconds,
                        };
                    }
                }
            },
            None => {},
        }
        PlaybackClock {
            track,
            anchor_position_microseconds,
            anchor_time_microseconds: now_microseconds,
            length_microseconds,
        }
    }

    /// The position at `now_microseconds`.
    pub fn position_microseconds_now(&self, now_microseconds: u64) -> (r: u64)
        ensures
            r == position_at(*self, now_microseconds),
    {
        let elapsed_microseconds = if now_microseconds >= self.anchor_time_microseconds {
            now_microseconds - self.anchor_time_microseconds
        } else {
            0
        };
        self.anchor_position_microseconds.saturating_add(elapsed_microseconds)
    }

    /// The position at `now_microseconds`, held at the track's length.
    pub fn clamped_position_microseconds_now(&self, now_microseconds: u64) -> (r: u64)
        ensures
            r == clamped_position_at(*self, now_microseconds),
    {
        let position = self.position_microseconds_now(now_microseconds);
        match self.length_microseconds {
            Some(length) => {
                if position <= length {
                    position
                } else {
                    length
                }
            },
            None => position,
        }
    }
}

/// The clamped position never runs past a known length, and never falls
/// behind the last report.
pub proof fn law_clamped_position_bounds(c: PlaybackClock, now: u64)
    ensures
        c.length_microseconds matches Some(len) ==> clamped_position_at(c, now) <= len,
        c.length_microseconds is None ==> clamped_position_at(c, now) >= c.anchor_position_microseconds,
        c.length_microseconds matches Some(len) && c.anchor_position_microseconds <= len
            ==> clamped_position_at(c, now) >= c.anchor_position_microseconds,
{
}

/// A clock started from a report shows the reported position at once.
pub proof fn law_fresh_clock_shows_report(c: PlaybackClock)
    ensures
        position_at(c, c.anchor_time_microseconds) == c.anchor_position_microseconds,
{
}

} // verus!
