//! What a media player reports: playback status, artwork URL and track
//! metadata.
use vstd::prelude::*;

verus! {

#[derive(Clone, Copy, Debug, PartialEq, Eq, Structural)]
pub enum ArtworkSlot {
    Primary,
    Secondary,
}

impl ArtworkSlot {
    /// The other of the two artwork layers.
    pub fn other(self) -> (r: Self)
        ensures
            r != self,
    {
        match self {
            ArtworkSlot::Primary => ArtworkSlot::Secondary,
            ArtworkSlot::Secondary => ArtworkSlot::Primary,
        }
    }
}

/// Switching artwork layers twice comes back to the layer one started from.
pub proof fn law_artwork_slot_other_involution(slot: ArtworkSlot)
    ensures
        ({
            let o = match slot {
                ArtworkSlot::Primary => ArtworkSlot::Secondary,
                ArtworkSlot::Secondary => ArtworkSlot::Primary,
            };
            &&& o != slot
            &&& (match o {
                ArtworkSlot::Primary => ArtworkSlot::Secondary,
                ArtworkSlot::Secondary => ArtworkSlot::Primary,
            }) == slot
        }),
{
}

#[derive(Clone, Debug, PartialEq, Eq)]
pub struct MediaState {
    pub status: PlaybackStatus,
    pub art_url: Option<String>,
    pub metadata: TrackMetadata,
}

#[derive(Clone, Debug, PartialEq, Eq)]
pub struct TrackMetadata {
    pub artist: String,
    pub title: String,
    pub album: String,
    pub track_number: String,
    pub length: String,
    pub length_microseconds: Option<u64>,
    pub position: String,
    pub position_microseconds: Option<u64>,
}

#[derive(Clone, Copy, Debug, PartialEq, Eq, Structural)]
pub enum PlaybackStatus {
    Playing,
    Paused,
    NotPlaying,
}

pub open spec fn status_rank(s: PlaybackStatus) -> u8 {
    match s {
        PlaybackStatus::Playing => 2,
        PlaybackStatus::Paused => 1,
        PlaybackStatus::NotPlaying => 0,
    }
}

impl PlaybackStatus {
    /// Artwork is shown while playing, and while paused when asked for.
    pub fn should_show_artwork(self, show_paused: bool) -> (r: bool)
        ensures
            r == (self == PlaybackStatus::Playing || (show_paused && self
                == PlaybackStatus::Paused)),
    {
        self == PlaybackStatus::Playing || (show_paused && self == PlaybackStatus::Paused)
    }

    /// How strongly automatic player selection prefers this status.
    pub fn auto_select_rank(self) -> (r: u8)
        ensures
            r == status_rank(self),
    {
        match self {
            PlaybackStatus::Playing => 2,
            PlaybackStatus::Paused => 1,
            PlaybackStatus::NotPlaying => 0,
        }
    }
}

/// Automatic selection prefers a playing player to a paused one, and a
/// paused one to one that is stopped.
pub proof fn law_status_rank_order()
    ensures
        status_rank(PlaybackStatus::Playing) > status_rank(PlaybackStatus::Paused),
        status_rank(PlaybackStatus::Paused) > status_rank(PlaybackStatus::NotPlaying),
{
}

impl Default for TrackMetadata {
    fn default() -> (m: Self)
        ensures
            m.artist@.len() == 0,
            m.title@.len() == 0,
            m.album@.len() == 0,
            m.track_number@.len() == 0,
            m.length@.len() == 0,
            m.length_microseconds is None,
            m.position@.len() == 0,
            m.position_microseconds is None,
    {
        TrackMetadata {
            artist: String::new(),
            title: String::new(),
            album: String::new(),
            track_number: String::new(),
            length: String::new(),
            length_microseconds: None,
            position: String::new(),
            position_microseconds: None,
        }
    }
}

} // verus!
