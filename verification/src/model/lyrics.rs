//! Settings of the synced-lyrics panel.
use vstd::prelude::*;

use crate::text::{named_or, same_outcome, chars_equal_str, chars_of, lower_chars, lower_text, message, trim, trim_chars};

verus! {

#[derive(Clone, Copy, Debug, PartialEq, Eq, Structural)]
pub enum LyricsLayout {
    SingleLine,
    MultiLine,
}

#[derive(Clone, Debug)]
pub struct LyricsStyleConfig {
    pub font_family: String,
    pub font_size_px: i32,
    pub text_color: String,
    pub active_line_color: String,
    pub background_color: String,
    pub padding_px: i32,
}

#[derive(Clone, Debug)]
pub struct LyricsConfig {
    pub enabled: bool,
    pub layout: LyricsLayout,
    pub lines_visible: usize,
    pub panel_width: i32,
    pub smooth_scroll: bool,
    pub style: LyricsStyleConfig,
}

pub open spec fn lyrics_layout_named(key: Seq<char>) -> Option<LyricsLayout> {
    if key == "singleline"@ || key == "single-line"@ || key == "single"@ {
        Some(LyricsLayout::SingleLine)
    } else if key == "multiline"@ || key == "multi-line"@ || key == "multi"@ {
        Some(LyricsLayout::MultiLine)
    } else {
        None
    }
}

pub open spec fn lyrics_layout_parsed(value: Seq<char>) -> Result<LyricsLayout, Seq<char>> {
    let key = lower_text(trim(value));
    named_or(
        lyrics_layout_named(key),
        "unsupported lyrics layout '"@ + key + "', expected singleline or multiline"@,
    )
}

impl LyricsLayout {
    /// Reads a lyrics `layout` value, trimmed, in any case.
    pub fn parse(value: &str) -> (r: Result<Self, String>)
        ensures
            same_outcome(r, lyrics_layout_parsed(value@)),
    {
        let key = lower_chars(trim_chars(chars_of(value).as_slice()).as_slice());
        let k = key.as_slice();
        if chars_equal_str(k, "singleline") || chars_equal_str(k, "single-line") || chars_equal_str(
            k,
            "single",
        ) {
            Ok(LyricsLayout::SingleLine)
        } else if chars_equal_str(k, "multiline") || chars_equal_str(k, "multi-line")
            || chars_equal_str(k, "multi") {
            Ok(LyricsLayout::MultiLine)
        } else {
            Err(message("unsupported lyrics layout '", k, "', expected singleline or multiline"))
        }
    }
}

pub open spec fn lyrics_style_is_default(s: LyricsStyleConfig) -> bool {
    &&& s.font_family@ == "Inter, Sans"@
    &&& s.font_size_px == 24
    &&& s.text_color@ == "rgba(255,255,255,0.96)"@
    &&& s.active_line_color@ == "rgba(255,255,255,1.0)"@
    &&& s.background_color@ == "rgba(0,0,0,0.42)"@
    &&& s.padding_px == 12
}

pub open spec fn lyrics_config_is_default(c: LyricsConfig) -> bool {
    &&& !c.enabled
    &&& c.layout == LyricsLayout::SingleLine
    &&& c.lines_visible == 7
    &&& c.panel_width == 320
    &&& c.smooth_scroll
    &&& lyrics_style_is_default(c.style)
}

impl Default for LyricsStyleConfig {
    fn default() -> (s: Self)
        ensures
            lyrics_style_is_default(s),
    {
        LyricsStyleConfig {
            font_family: "Inter, Sans".to_owned(),
            font_size_px: 24,
            text_color: "rgba(255,255,255,0.96)".to_owned(),
            active_line_color: "rgba(255,255,255,1.0)".to_owned(),
            background_color: "rgba(0,0,0,0.42)".to_owned(),
            padding_px: 12,
        }
    }
}

impl Default for LyricsConfig {
    fn default() -> (c: Self)
        ensures
            lyrics_config_is_default(c),
    {
        LyricsConfig {
            enabled: false,
            layout: LyricsLayout::SingleLine,
            lines_visible: 7,
            panel_width: 320,
            smooth_scroll: true,
            style: LyricsStyleConfig::default(),
        }
    }
}

} // verus!
