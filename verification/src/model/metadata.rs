//! Settings of the metadata bands drawn beside the cover.
use vstd::prelude::*;

use crate::text::{named_or, same_outcome, chars_equal_str, chars_of, lower_chars, lower_text, message, trim, trim_chars};

verus! {

#[derive(Clone, Copy, Debug, PartialEq, Eq, Structural)]
pub enum MetadataSection {
    Top,
    Left,
}

#[derive(Clone, Copy, Debug, PartialEq, Eq, Structural)]
pub enum SectionAlign {
    Start,
    End,
}

#[derive(Clone, Copy, Debug, PartialEq, Eq, Structural)]
pub enum TruncateMode {
    Start,
    End,
}

#[derive(Clone, Copy, Debug, PartialEq, Eq, Structural)]
pub enum TextAnimationMode {
    /// Written `none`: the text appears at once.
    Off,
    Typewriter,
    Fade,
}

#[derive(Clone, Copy, Debug, PartialEq, Eq, Structural)]
pub enum RevealDirection {
    TopLeftToBottomRight,
    LeftToRight,
    RightToLeft,
    TopToBottom,
    BottomToTop,
    BottomRightToTopLeft,
}

#[derive(Clone, Debug)]
pub struct TextAnimationConfig {
    pub mode: TextAnimationMode,
    pub direction: RevealDirection,
    pub duration_ms: u32,
}

#[derive(Clone, Debug)]
pub struct MetadataStyleConfig {
    pub font_family: String,
    pub font_size_px: i32,
    pub font_weight: i32,
    pub text_color: String,
    pub background_color: String,
    pub padding_px: i32,
}

#[derive(Clone, Debug)]
pub struct MetadataSectionConfig {
    pub enabled: bool,
    pub template: String,
    pub align: SectionAlign,
    pub truncate: TruncateMode,
    pub band_size_px: i32,
    pub style: MetadataStyleConfig,
    pub animation: TextAnimationConfig,
}

#[derive(Clone, Debug)]
pub struct MetadataConfig {
    pub enabled: bool,
    pub top: MetadataSectionConfig,
    pub left: MetadataSectionConfig,
}

/// The default style, with the given font size.
pub open spec fn style_is_default(s: MetadataStyleConfig, font_size_px: i32) -> bool {
    &&& s.font_family@ == "Inter, Sans"@
    &&& s.font_size_px == font_size_px
    &&& s.font_weight == 700
    &&& s.text_color@ == "rgba(255,255,255,0.94)"@
    &&& s.background_color@ == "rgba(0,0,0,0.30)"@
    &&& s.padding_px == 8
}

pub open spec fn metadata_config_is_default(c: MetadataConfig) -> bool {
    &&& c.enabled
    &&& c.top.enabled
    &&& c.top.template@ == "{{artist}}"@
    &&& c.top.align == SectionAlign::Start
    &&& c.top.truncate == TruncateMode::End
    &&& c.top.band_size_px == 40
    &&& style_is_default(c.top.style, 20)
    &&& c.top.animation.mode == TextAnimationMode::Fade
    &&& c.top.animation.direction == RevealDirection::LeftToRight
    &&& c.top.animation.duration_ms == 620
    &&& c.left.enabled
    &&& c.left.template@ == "{{title}}"@
    &&& c.left.align == SectionAlign::Start
    &&& c.left.truncate == TruncateMode::End
    &&& c.left.band_size_px == 34
    &&& style_is_default(c.left.style, 18)
    &&& c.left.animation.mode == TextAnimationMode::Fade
    &&& c.left.animation.direction == RevealDirection::TopToBottom
    &&& c.left.animation.duration_ms == 700
}

impl Default for MetadataStyleConfig {
    fn default() -> (s: Self)
        ensures
            style_is_default(s, 20),
    {
        MetadataStyleConfig {
            font_family: "Inter, Sans".to_owned(),
            font_size_px: 20,
            font_weight: 700,
            text_color: "rgba(255,255,255,0.94)".to_owned(),
            background_color: "rgba(0,0,0,0.30)".to_owned(),
            padding_px: 8,
        }
    }
}

impl Default for TextAnimationConfig {
    fn default() -> (a: Self)
        ensures
            a.mode == TextAnimationMode::Fade,
            a.direction == RevealDirection::LeftToRight,
            a.duration_ms == 680,
    {
        TextAnimationConfig {
            mode: TextAnimationMode::Fade,
            direction: RevealDirection::LeftToRight,
            duration_ms: 680,
        }
    }
}

impl Default for MetadataConfig {
    fn default() -> (c: Self)
        ensures
            metadata_config_is_default(c),
    {
        let top_style = MetadataStyleConfig::default();
        let base = MetadataStyleConfig::default();
        let left_style = MetadataStyleConfig { font_size_px: 18, ..base };
        MetadataConfig {
            enabled: true,
            top: MetadataSectionConfig {
                enabled: true,
                template: "{{artist}}".to_owned(),
                align: SectionAlign::Start,
                truncate: TruncateMode::End,
                band_size_px: 40,
                style: top_style,
                animation: TextAnimationConfig {
                    mode: TextAnimationMode::Fade,
                    direction: RevealDirection::LeftToRight,
                    duration_ms: 620,
                },
            },
            left: MetadataSectionConfig {
                enabled: true,
                template: "{{title}}".to_owned(),
                align: SectionAlign::Start,
                truncate: TruncateMode::End,
                band_size_px: 34,
                style: left_style,
                animation: TextAnimationConfig {
                    mode: TextAnimationMode::Fade,
                    direction: RevealDirection::TopToBottom,
                    duration_ms: 700,
                },
            },
        }
    }
}

pub open spec fn start_end_named(key: Seq<char>) -> Option<bool> {
    if key == "start"@ {
        Some(true)
    } else if key == "end"@ {
        Some(false)
    } else {
        None
    }
}

pub open spec fn animation_mode_named(key: Seq<char>) -> Option<TextAnimationMode> {
    if key == "none"@ {
        Some(TextAnimationMode::Off)
    } else if key == "typewriter"@ {
        Some(TextAnimationMode::Typewriter)
    } else if key == "fade"@ {
        Some(TextAnimationMode::Fade)
    } else {
        None
    }
}

pub open spec fn reveal_direction_named(key: Seq<char>) -> Option<RevealDirection> {
    if key == "tl-br"@ {
        Some(RevealDirection::TopLeftToBottomRight)
    } else if key == "l-r"@ {
        Some(RevealDirection::LeftToRight)
    } else if key == "r-l"@ {
        Some(RevealDirection::RightToLeft)
    } else if key == "t-b"@ {
        Some(RevealDirection::TopToBottom)
    } else if key == "b-t"@ {
        Some(RevealDirection::BottomToTop)
    } else if key == "br-tl"@ {
        Some(RevealDirection::BottomRightToTopLeft)
    } else {
        None
    }
}

pub open spec fn section_align_parsed(value: Seq<char>) -> Result<SectionAlign, Seq<char>> {
    let key = lower_text(trim(value));
    named_or(
        match start_end_named(key) {
            Some(true) => Some(SectionAlign::Start),
            Some(false) => Some(SectionAlign::End),
            None => None,
        },
        "unsupported align value '"@ + key + "', expected start or end"@,
    )
}

pub open spec fn truncate_mode_parsed(value: Seq<char>) -> Result<TruncateMode, Seq<char>> {
    let key = lower_text(trim(value));
    named_or(
        match start_end_named(key) {
            Some(true) => Some(TruncateMode::Start),
            Some(false) => Some(TruncateMode::End),
            None => None,
        },
        "unsupported truncate value '"@ + key + "', expected start or end"@,
    )
}

pub open spec fn animation_mode_parsed(value: Seq<char>) -> Result<TextAnimationMode, Seq<char>> {
    let key = lower_text(trim(value));
    named_or(
        animation_mode_named(key),
        "unsupported animation mode '"@ + key + "', expected none, typewriter, or fade"@,
    )
}

pub open spec fn reveal_direction_parsed(value: Seq<char>) -> Result<RevealDirection, Seq<char>> {
    let key = lower_text(trim(value));
    named_or(
        reveal_direction_named(key),
        "unsupported animation direction '"@ + key
            + "', expected one of: tl-br, l-r, r-l, t-b, b-t, br-tl"@,
    )
}

/// The trimmed, lower-cased text of an option value.
fn option_key(value: &str) -> (r: Vec<char>)
    ensures
        r@ == lower_text(trim(value@)),
{
    lower_chars(trim_chars(chars_of(value).as_slice()).as_slice())
}

impl SectionAlign {
    /// Reads an `align` value: `start` or `end`, trimmed, in any case.
    pub fn parse(value: &str) -> (r: Result<Self, String>)
        ensures
            same_outcome(r, section_align_parsed(value@)),
    {
        let key = option_key(value);
        if chars_equal_str(key.as_slice(), "start") {
            Ok(SectionAlign::Start)
        } else if chars_equal_str(key.as_slice(), "end") {
            Ok(SectionAlign::End)
        } else {
            Err(message("unsupported align value '", key.as_slice(), "', expected start or end"))
        }
    }
}

impl TruncateMode {
    /// Reads a `truncate` value: `start` or `end`, trimmed, in any case.
    pub fn parse(value: &str) -> (r: Result<Self, String>)
        ensures
            same_outcome(r, truncate_mode_parsed(value@)),
    {
        let key = option_key(value);
        if chars_equal_str(key.as_slice(), "start") {
            Ok(TruncateMode::Start)
        } else if chars_equal_str(key.as_slice(), "end") {
            Ok(TruncateMode::End)
        } else {
            Err(
                message("unsupported truncate value '", key.as_slice(), "', expected start or end"),
            )
        }
    }
}

impl TextAnimationMode {
    /// Reads an animation `mode` value, trimmed, in any case.
    pub fn parse(value: &str) -> (r: Result<Self, String>)
        ensures
            same_outcome(r, animation_mode_parsed(value@)),
    {
        let key = option_key(value);
        let k = key.as_slice();
        if chars_equal_str(k, "none") {
            Ok(TextAnimationMode::Off)
        } else if chars_equal_str(k, "typewriter") {
            Ok(TextAnimationMode::Typewriter)
        } else if chars_equal_str(k, "fade") {
            Ok(TextAnimationMode::Fade)
        } else {
            Err(message("unsupported animation mode '", k, "', expected none, typewriter, or fade"))
        }
    }
}

impl RevealDirection {
    /// Reads an animation `direction` value, trimmed, in any case.
    pub fn parse(value: &str) -> (r: Result<Self, String>)
        ensures
            same_outcome(r, reveal_direction_parsed(value@)),
    {
        let key = option_key(value);
        let k = key.as_slice();
        if chars_equal_str(k, "tl-br") {
            Ok(RevealDirection::TopLeftToBottomRight)
        } else if chars_equal_str(k, "l-r") {
            Ok(RevealDirection::LeftToRight)
        } else if chars_equal_str(k, "r-l") {
            Ok(RevealDirection::RightToLeft)
        } else if chars_equal_str(k, "t-b") {
            Ok(RevealDirection::TopToBottom)
        } else if chars_equal_str(k, "b-t") {
            Ok(RevealDirection::BottomToTop)
        } else if chars_equal_str(k, "br-tl") {
            Ok(RevealDirection::BottomRightToTopLeft)
        } else {
            Err(
                message(
                    "unsupported animation direction '",
                    k,
                    "', expected one of: tl-br, l-r, r-l, t-b, b-t, br-tl",
                ),
            )
        }
    }
}

} // verus!
