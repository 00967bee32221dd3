//! Covermint's core logic: configuration, command-line and template parsing,
//! synced-lyrics handling and layout arithmetic, verified with Verus.
mod text;
pub mod artwork;
pub mod cli;
pub mod config;
pub mod control;
pub mod lyrics;
pub mod metadata;
pub mod model;
pub mod monitor;
pub mod mpris;
pub mod player;
pub mod timestamp;
pub mod ui;
