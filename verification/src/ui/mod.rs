//! The overlay's arithmetic and text that do not need a window: sizes and
//! offsets, the playback clock, and the style sheet.
pub mod playback_clock;
pub mod style;
pub mod layout;
pub mod runtime;
