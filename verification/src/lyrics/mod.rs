//! Synced lyrics: reading LRC text, following playback, and looking lyrics
//! up by track signature in a cache and on lrclib.net.
pub mod lookup;
pub mod lrc;
pub mod signature;
