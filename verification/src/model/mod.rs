//! The data model: configuration, metadata settings, lyrics settings and
//! media state.
pub mod config;
pub mod lyrics;
pub mod media;
pub mod metadata;
