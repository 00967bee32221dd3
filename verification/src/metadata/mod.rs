//! Metadata overlay text: templates and reveal animations.
pub mod template;
pub mod animation;
pub mod widgets;
