//! The application configuration and the option values it is built from.
use vstd::prelude::*;

use super::lyrics::{lyrics_config_is_default, LyricsConfig};
use super::metadata::{metadata_config_is_default, MetadataConfig};
use crate::text::{
    named_or, same_outcome, chars_equal_str, chars_of, is_ascii_upper, lower_chars, lower_text, message, trim, trim_chars,
};

verus! {

/// The IEEE-754 bit pattern of the opacity `1.0`.
pub const OPACITY_ONE_BITS: u64 = 0x3FF0_0000_0000_0000u64;

#[derive(Clone, Debug)]
pub struct Config {
    pub monitor_selector: String,
    pub player: String,
    pub width: i32,
    pub height: i32,
    pub artwork_fit: ArtworkFit,
    pub placement: Placement,
    pub offset_x: i32,
    pub offset_y: i32,
    pub border_width: i32,
    pub border_color: String,
    pub corner_radius: i32,
    /// The opacity, as the bit pattern of an `f64` between 0.0 and 1.0.
    pub opacity_bits: u64,
    pub transition: Transition,
    pub transition_ms: u32,
    pub poll_seconds: u32,
    pub show_paused: bool,
    pub cache_enabled: bool,
    pub cache_max_files: usize,
    pub cache_max_bytes: u64,
    pub layer: ShellLayer,
    pub metadata: MetadataConfig,
    pub lyrics: LyricsConfig,
}

#[derive(Clone, Copy, Debug, PartialEq, Eq, Structural)]
pub enum ShellLayer {
    Background,
    Bottom,
}

#[derive(Clone, Copy, Debug, PartialEq, Eq, Structural)]
pub enum ArtworkFit {
    Contain,
    Cover,
    Fill,
}

#[derive(Clone, Copy, Debug, PartialEq, Eq, Structural)]
pub enum Placement {
    TopLeft,
    Top,
    TopRight,
    Left,
    Center,
    Right,
    BottomLeft,
    Bottom,
    BottomRight,
}

#[derive(Clone, Copy, Debug, PartialEq, Eq, Structural)]
pub enum AxisPlacement {
    Start,
    Center,
    End,
}

#[derive(Clone, Copy, Debug, PartialEq, Eq, Structural)]
pub enum Transition {
    /// Written `none`: the artwork changes at once.
    Off,
    Fade,
    Flip,
    Hinge,
    Slide,
    Cover,
}

// ---------------------------------------------------------------------------
// Names of option values
// ---------------------------------------------------------------------------

pub open spec fn shell_layer_named(value: Seq<char>) -> Option<ShellLayer> {
    if value == "background"@ {
        Some(ShellLayer::Background)
    } else if value == "bottom"@ {
        Some(ShellLayer::Bottom)
    } else {
        None
    }
}

pub open spec fn artwork_fit_named(key: Seq<char>) -> Option<ArtworkFit> {
    if key == "contain"@ {
        Some(ArtworkFit::Contain)
    } else if key == "cover"@ {
        Some(ArtworkFit::Cover)
    } else if key == "fill"@ {
        Some(ArtworkFit::Fill)
    } else {
        None
    }
}

pub open spec fn transition_named(key: Seq<char>) -> Option<Transition> {
    if key == "none"@ {
        Some(Transition::Off)
    } else if key == "fade"@ {
        Some(Transition::Fade)
    } else if key == "flip"@ {
        Some(Transition::Flip)
    } else if key == "hinge"@ {
        Some(Transition::Hinge)
    } else if key == "slide"@ {
        Some(Transition::Slide)
    } else if key == "cover"@ {
        Some(Transition::Cover)
    } else {
        None
    }
}

pub open spec fn transition_label(t: Transition) -> Seq<char> {
    match t {
        Transition::Off => "none"@,
        Transition::Fade => "fade"@,
        Transition::Flip => "flip"@,
        Transition::Hinge => "hinge"@,
        Transition::Slide => "slide"@,
        Transition::Cover => "cover"@,
    }
}

pub open spec fn placement_named(key: Seq<char>) -> Option<Placement> {
    if key == "top-left"@ || key == "tl"@ {
        Some(Placement::TopLeft)
    } else if key == "top"@ || key == "top-center"@ || key == "tc"@ {
        Some(Placement::Top)
    } else if key == "top-right"@ || key == "tr"@ {
        Some(Placement::TopRight)
    } else if key == "left"@ || key == "center-left"@ || key == "cl"@ {
        Some(Placement::Left)
    } else if key == "center"@ || key == "middle"@ {
        Some(Placement::Center)
    } else if key == "right"@ || key == "center-right"@ || key == "cr"@ {
        Some(Placement::Right)
    } else if key == "bottom-left"@ || key == "bl"@ {
        Some(Placement::BottomLeft)
    } else if key == "bottom"@ || key == "bottom-center"@ || key == "bc"@ {
        Some(Placement::Bottom)
    } else if key == "bottom-right"@ || key == "br"@ {
        Some(Placement::BottomRight)
    } else {
        None
    }
}

pub open spec fn placement_label(p: Placement) -> Seq<char> {
    match p {
        Placement::TopLeft => "top-left"@,
        Placement::Top => "top"@,
        Placement::TopRight => "top-right"@,
        Placement::Left => "left"@,
        Placement::Center => "center"@,
        Placement::Right => "right"@,
        Placement::BottomLeft => "bottom-left"@,
        Placement::Bottom => "bottom"@,
        Placement::BottomRight => "bottom-right"@,
    }
}

pub open spec fn shell_layer_parsed(value: Seq<char>) -> Result<ShellLayer, Seq<char>> {
    named_or(
        shell_layer_named(value),
        "unsupported --layer value '"@ + value + "', expected background or bottom"@,
    )
}

pub open spec fn artwork_fit_parsed(value: Seq<char>) -> Result<ArtworkFit, Seq<char>> {
    let key = lower_text(trim(value));
    named_or(
        artwork_fit_named(key),
        "unsupported artwork_fit value '"@ + key + "', expected contain, cover, or fill"@,
    )
}

pub open spec fn transition_parsed(value: Seq<char>) -> Result<Transition, Seq<char>> {
    let key = lower_text(value);
    named_or(
        transition_named(key),
        "unsupported --transition value '"@ + key
            + "', expected one of: none, fade, flip, hinge, slide, cover"@,
    )
}

pub open spec fn placement_parsed(value: Seq<char>) -> Result<Placement, Seq<char>> {
    let key = lower_text(value);
    named_or(
        placement_named(key),
        "unsupported --placement value '"@ + key
            + "', expected one of: top-left, top, top-right, left, center, right, bottom-left, bottom, bottom-right"@,
    )
}

/// The direction, as unit steps on the x and y axes, in which artwork
/// anchored at `p` moves towards its screen edge; `None` at the center.
pub open spec fn edge_direction(p: Placement) -> Option<(i8, i8)> {
    match p {
        Placement::TopLeft | Placement::Left | Placement::BottomLeft => Some((-1i8, 0i8)),
        Placement::TopRight | Placement::Right | Placement::BottomRight => Some((1i8, 0i8)),
        Placement::Top => Some((0i8, -1i8)),
        Placement::Bottom => Some((0i8, 1i8)),
        Placement::Center => None,
    }
}

impl ShellLayer {
    /// Reads a `--layer` value: `background` or `bottom`, exactly.
    pub fn parse(value: &str) -> (r: Result<Self, String>)
        ensures
            same_outcome(r, shell_layer_parsed(value@)),
    {
        let v = chars_of(value);
        if chars_equal_str(v.as_slice(), "background") {
            Ok(ShellLayer::Background)
        } else if chars_equal_str(v.as_slice(), "bottom") {
            Ok(ShellLayer::Bottom)
        } else {
            Err(
                message(
                    "unsupported --layer value '",
                    v.as_slice(),
                    "', expected background or bottom",
                ),
            )
        }
    }
}

impl ArtworkFit {
    /// Reads an `artwork_fit` value, trimmed and case-insensitively.
    pub fn parse(value: &str) -> (r: Result<Self, String>)
        ensures
            same_outcome(r, artwork_fit_parsed(value@)),
    {
        let key = lower_chars(trim_chars(chars_of(value).as_slice()).as_slice());
        if chars_equal_str(key.as_slice(), "contain") {
            Ok(ArtworkFit::Contain)
        } else if chars_equal_str(key.as_slice(), "cover") {
            Ok(ArtworkFit::Cover)
        } else if chars_equal_str(key.as_slice(), "fill") {
            Ok(ArtworkFit::Fill)
        } else {
            Err(
                message(
                    "unsupported artwork_fit value '",
                    key.as_slice(),
                    "', expected contain, cover, or fill",
                ),
            )
        }
    }
}

impl Transition {
    /// Reads a `--transition` value, case-insensitively.
    pub fn parse(value: &str) -> (r: Result<Self, String>)
        ensures
            same_outcome(r, transition_parsed(value@)),
    {
        let key = lower_chars(chars_of(value).as_slice());
        let k = key.as_slice();
        if chars_equal_str(k, "none") {
            Ok(Transition::Off)
        } else if chars_equal_str(k, "fade") {
            Ok(Transition::Fade)
        } else if chars_equal_str(k, "flip") {
            Ok(Transition::Flip)
        } else if chars_equal_str(k, "hinge") {
            Ok(Transition::Hinge)
        } else if chars_equal_str(k, "slide") {
            Ok(Transition::Slide)
        } else if chars_equal_str(k, "cover") {
            Ok(Transition::Cover)
        } else {
            Err(
                message(
                    "unsupported --transition value '",
                    k,
                    "', expected one of: none, fade, flip, hinge, slide, cover",
                ),
            )
        }
    }

    /// The name under which the transition is written.
    pub fn label(self) -> (r: &'static str)
        ensures
            r@ == transition_label(self),
    {
        match self {
            Transition::Off => "none",
            Transition::Fade => "fade",
            Transition::Flip => "flip",
            Transition::Hinge => "hinge",
            Transition::Slide => "slide",
            Transition::Cover => "cover",
        }
    }
}

/// Where on the horizontal axis a placement puts the artwork.
pub open spec fn placement_horizontal(p: Placement) -> AxisPlacement {
    match p {
        Placement::TopLeft | Placement::Left | Placement::BottomLeft => AxisPlacement::Start,
        Placement::Top | Placement::Center | Placement::Bottom => AxisPlacement::Center,
        Placement::TopRight | Placement::Right | Placement::BottomRight => AxisPlacement::End,
    }
}

/// Where on the vertical axis a placement puts the artwork.
pub open spec fn placement_vertical(p: Placement) -> AxisPlacement {
    match p {
        Placement::TopLeft | Placement::Top | Placement::TopRight => AxisPlacement::Start,
        Placement::Left | Placement::Center | Placement::Right => AxisPlacement::Center,
        Placement::BottomLeft | Placement::Bottom | Placement::BottomRight => AxisPlacement::End,
    }
}

impl Placement {
    /// Reads a `--placement` value, case-insensitively, with its short aliases.
    pub fn parse(value: &str) -> (r: Result<Self, String>)
        ensures
            same_outcome(r, placement_parsed(value@)),
    {
        let key = lower_chars(chars_of(value).as_slice());
        let k = key.as_slice();
        if chars_equal_str(k, "top-left") || chars_equal_str(k, "tl") {
            Ok(Placement::TopLeft)
        } else if chars_equal_str(k, "top") || chars_equal_str(k, "top-center") || chars_equal_str(
            k,
            "tc",
        ) {
            Ok(Placement::Top)
        } else if chars_equal_str(k, "top-right") || chars_equal_str(k, "tr") {
            Ok(Placement::TopRight)
        } else if chars_equal_str(k, "left") || chars_equal_str(k, "center-left")
            || chars_equal_str(k, "cl") {
            Ok(Placement::Left)
        } else if chars_equal_str(k, "center") || chars_equal_str(k, "middle") {
            Ok(Placement::Center)
        } else if chars_equal_str(k, "right") || chars_equal_str(k, "center-right")
            || chars_equal_str(k, "cr") {
            Ok(Placement::Right)
        } else if chars_equal_str(k, "bottom-left") || chars_equal_str(k, "bl") {
            Ok(Placement::BottomLeft)
        } else if chars_equal_str(k, "bottom") || chars_equal_str(k, "bottom-center")
            || chars_equal_str(k, "bc") {
            Ok(Placement::Bottom)
        } else if chars_equal_str(k, "bottom-right") || chars_equal_str(k, "br") {
            Ok(Placement::BottomRight)
        } else {
            Err(
                message(
                    "unsupported --placement value '",
                    k,
                    "', expected one of: top-left, top, top-right, left, center, right, bottom-left, bottom, bottom-right",
                ),
            )
        }
    }

    /// Where on the horizontal axis the placement puts the artwork.
    pub fn horizontal(self) -> (r: AxisPlacement)
        ensures
            r == placement_horizontal(self),
    {
        match self {
            Placement::TopLeft | Placement::Left | Placement::BottomLeft => AxisPlacement::Start,
            Placement::Top | Placement::Center | Placement::Bottom => AxisPlacement::Center,
            Placement::TopRight | Placement::Right | Placement::BottomRight => AxisPlacement::End,
        }
    }

    /// Where on the vertical axis the placement puts the artwork.
    pub fn vertical(self) -> (r: AxisPlacement)
        ensures
            r == placement_vertical(self),
    {
        match self {
            Placement::TopLeft | Placement::Top | Placement::TopRight => AxisPlacement::Start,
            Placement::Left | Placement::Center | Placement::Right => AxisPlacement::Center,
            Placement::BottomLeft | Placement::Bottom | Placement::BottomRight => AxisPlacement::End,
        }
    }

    /// The canonical name of the placement.
    pub fn label(self) -> (r: &'static str)
        ensures
            r@ == placement_label(self),
    {
        match self {
            Placement::TopLeft => "top-left",
            Placement::Top => "top",
            Placement::TopRight => "top-right",
            Placement::Left => "left",
            Placement::Center => "center",
            Placement::Right => "right",
            Placement::BottomLeft => "bottom-left",
            Placement::Bottom => "bottom",
            Placement::BottomRight => "bottom-right",
        }
    }

    /// Whether the placement touches a screen edge, as slide and cover need.
    pub fn supports_edge_anchored_transition(self) -> (r: bool)
        ensures
            r == edge_direction(self).is_some(),
            r == (self != Placement::Center),
    {
        self.edge_motion_direction().is_some()
    }

    /// The unit direction towards the screen edge the placement touches.
    pub fn edge_motion_direction(self) -> (r: Option<(i8, i8)>)
        ensures
            r == edge_direction(self),
    {
        match self {
            Placement::TopLeft | Placement::Left | Placement::BottomLeft => Some((-1i8, 0i8)),
            Placement::TopRight | Placement::Right | Placement::BottomRight => Some((1i8, 0i8)),
            Placement::Top => Some((0i8, -1i8)),
            Placement::Bottom => Some((0i8, 1i8)),
            Placement::Center => None,
        }
    }
}

/// Whether a transition moves the artwork towards a screen edge.
pub open spec fn is_edge_transition(t: Transition) -> bool {
    t == Transition::Slide || t == Transition::Cover
}

/// The defaults of every setting.
pub open spec fn config_is_default(c: Config) -> bool {
    &&& c.monitor_selector@ == "auto"@
    &&& c.player@ == "auto"@
    &&& c.width == 420
    &&& c.height == 420
    &&& c.artwork_fit == ArtworkFit::Cover
    &&& c.placement == Placement::BottomRight
    &&& c.offset_x == 48
    &&& c.offset_y == 48
    &&& c.border_width == 0
    &&& c.border_color@ == "rgba(255,255,255,0.35)"@
    &&& c.corner_radius == 0
    &&& c.opacity_bits == OPACITY_ONE_BITS
    &&& c.transition == Transition::Fade
    &&& c.transition_ms == 180
    &&& c.poll_seconds == 2
    &&& !c.show_paused
    &&& c.cache_enabled
    &&& c.cache_max_files == 128
    &&& c.cache_max_bytes == 256 * 1024 * 1024
    &&& c.layer == ShellLayer::Background
    &&& metadata_config_is_default(c.metadata)
    &&& lyrics_config_is_default(c.lyrics)
}

impl Default for Config {
    fn default() -> (c: Self)
        ensures
            config_is_default(c),
    {
        Config {
            monitor_selector: "auto".to_owned(),
            player: "auto".to_owned(),
            width: 420,
            height: 420,
            artwork_fit: ArtworkFit::Cover,
            placement: Placement::BottomRight,
            offset_x: 48,
            offset_y: 48,
            border_width: 0,
            border_color: "rgba(255,255,255,0.35)".to_owned(),
            corner_radius: 0,
            opacity_bits: OPACITY_ONE_BITS,
            transition: Transition::Fade,
            transition_ms: 180,
            poll_seconds: 2,
            show_paused: false,
            cache_enabled: true,
            cache_max_files: 128,
            cache_max_bytes: 256 * 1024 * 1024,
            layer: ShellLayer::Background,
            metadata: MetadataConfig::default(),
            lyrics: LyricsConfig::default(),
        }
    }
}

impl Config {
    /// Refuses a slide or cover transition at the center placement, which
    /// has no screen edge to move towards.
    pub fn validate(&self) -> (r: Result<(), String>)
        ensures
            r is Ok <==> !(is_edge_transition(self.transition) && self.placement
                == Placement::Center),
            r matches Err(e) ==> e@ == "--transition "@ + transition_label(self.transition)
                + " requires a placement adjacent to a screen edge, got '"@ + placement_label(
                self.placement,
            ) + "'"@,
    {
        let edge = match self.transition {
            Transition::Slide | Transition::Cover => true,
            _ => false,
        };
        if edge && !self.placement.supports_edge_anchored_transition() {
            let label = chars_of(self.transition.label());
            let mut s = message(
                "--transition ",
                label.as_slice(),
                " requires a placement adjacent to a screen edge, got '",
            );
            let place = chars_of(self.placement.label());
            crate::text::push_chars(&mut s, place.as_slice());
            crate::text::push_str(&mut s, "'");
            return Err(s);
        }
        Ok(())
    }
}

proof fn lemma_lower_identity(s: Seq<char>)
    requires
        forall|i: int| 0 <= i < s.len() ==> !is_ascii_upper(#[trigger] s[i]),
    ensures
        lower_text(s) == s,
{
    assert(lower_text(s) =~= s);
}

/// A transition's label reads back as that transition.
pub proof fn law_transition_label_roundtrip(t: Transition)
    ensures
        transition_named(lower_text(transition_label(t))) == Some(t),
{
    reveal_strlit("none");
    reveal_strlit("fade");
    reveal_strlit("flip");
    reveal_strlit("hinge");
    reveal_strlit("slide");
    reveal_strlit("cover");
    lemma_lower_identity(transition_label(t));
    match t {
        Transition::Off => {
        },
        Transition::Fade => {
            assert("fade"@[0] != "none"@[0]);
        },
        Transition::Flip => {
            assert("flip"@[0] != "none"@[0]);
            assert("flip"@[1] != "fade"@[1]);
        },
        Transition::Hinge => {
            assert("hinge"@.len() != "none"@.len());
            assert("hinge"@.len() != "fade"@.len());
            assert("hinge"@.len() != "flip"@.len());
        },
        Transition::Slide => {
            assert("slide"@.len() != "none"@.len());
            assert("slide"@.len() != "fade"@.len());
            assert("slide"@.len() != "flip"@.len());
            assert("slide"@[0] != "hinge"@[0]);
        },
        Transition::Cover => {
            assert("cover"@.len() != "none"@.len());
            assert("cover"@.len() != "fade"@.len());
            assert("cover"@.len() != "flip"@.len());
            assert("cover"@[0] != "hinge"@[0]);
            assert("cover"@[0] != "slide"@[0]);
        },
    }
}

/// A placement's label reads back as that placement.
pub proof fn law_placement_label_roundtrip(p: Placement)
    ensures
        placement_named(lower_text(placement_label(p))) == Some(p),
{
    reveal_strlit("top-left");
    reveal_strlit("tl");
    reveal_strlit("top");
    reveal_strlit("top-center");
    reveal_strlit("tc");
    reveal_strlit("top-right");
    reveal_strlit("tr");
    reveal_strlit("left");
    reveal_strlit("center-left");
    reveal_strlit("cl");
    reveal_strlit("center");
    reveal_strlit("middle");
    reveal_strlit("right");
    reveal_strlit("center-right");
    reveal_strlit("cr");
    reveal_strlit("bottom-left");
    reveal_strlit("bl");
    reveal_strlit("bottom");
    reveal_strlit("bottom-center");
    reveal_strlit("bc");
    reveal_strlit("bottom-right");
    reveal_strlit("br");
    lemma_lower_identity(placement_label(p));
    match p {
        Placement::TopLeft => {
        },
        Placement::Top => {
            assert("top"@.len() != "top-left"@.len());
            assert("top"@.len() != "tl"@.len());
        },
        Placement::TopRight => {
            assert("top-right"@.len() != "top-left"@.len());
            assert("top-right"@.len() != "tl"@.len());
            assert("top-right"@.len() != "top"@.len());
            assert("top-right"@.len() != "top-center"@.len());
            assert("top-right"@.len() != "tc"@.len());
        },
        Placement::Left => {
            assert("left"@.len() != "top-left"@.len());
            assert("left"@.len() != "tl"@.len());
            assert("left"@.len() != "top"@.len());
            assert("left"@.len() != "top-center"@.len());
            assert("left"@.len() != "tc"@.len());
            assert("left"@.len() != "top-right"@.len());
            assert("left"@.len() != "tr"@.len());
        },
        Placement::Center => {
            assert("center"@.len() != "top-left"@.len());
            assert("center"@.len() != "tl"@.len());
            assert("center"@.len() != "top"@.len());
            assert("center"@.len() != "top-center"@.len());
            assert("center"@.len() != "tc"@.len());
            assert("center"@.len() != "top-right"@.len());
            assert("center"@.len() != "tr"@.len());
            assert("center"@.len() != "left"@.len());
            assert("center"@.len() != "center-left"@.len());
            assert("center"@.len() != "cl"@.len());
        },
        Placement::Right => {
            assert("right"@.len() != "top-left"@.len());
            assert("right"@.len() != "tl"@.len());
            assert("right"@.len() != "top"@.len());
            assert("right"@.len() != "top-center"@.len());
            assert("right"@.len() != "tc"@.len());
            assert("right"@.len() != "top-right"@.len());
            assert("right"@.len() != "tr"@.len());
            assert("right"@.len() != "left"@.len());
            assert("right"@.len() != "center-left"@.len());
            assert("right"@.len() != "cl"@.len());
            assert("right"@.len() != "center"@.len());
            assert("right"@.len() != "middle"@.len());
        },
        Placement::BottomLeft => {
            assert("bottom-left"@.len() != "top-left"@.len());
            assert("bottom-left"@.len() != "tl"@.len());
            assert("bottom-left"@.len() != "top"@.len());
            assert("bottom-left"@.len() != "top-center"@.len());
            assert("bottom-left"@.len() != "tc"@.len());
            assert("bottom-left"@.len() != "top-right"@.len());
            assert("bottom-left"@.len() != "tr"@.len());
            assert("bottom-left"@.len() != "left"@.len());
            assert("bottom-left"@[0] != "center-left"@[0]);
            assert("bottom-left"@.len() != "cl"@.len());
            assert("bottom-left"@.len() != "center"@.len());
            assert("bottom-left"@.len() != "middle"@.len());
            assert("bottom-left"@.len() != "right"@.len());
            assert("bottom-left"@.len() != "center-right"@.len());
            assert("bottom-left"@.len() != "cr"@.len());
        },
        Placement::Bottom => {
            assert("bottom"@.len() != "top-left"@.len());
            assert("bottom"@.len() != "tl"@.len());
            assert("bottom"@.len() != "top"@.len());
            assert("bottom"@.len() != "top-center"@.len());
            assert("bottom"@.len() != "tc"@.len());
            assert("bottom"@.len() != "top-right"@.len());
            assert("bottom"@.len() != "tr"@.len());
            assert("bottom"@.len() != "left"@.len());
            assert("bottom"@.len() != "center-left"@.len());
            assert("bottom"@.len() != "cl"@.len());
            assert("bottom"@[0] != "center"@[0]);
            assert("bottom"@[0] != "middle"@[0]);
            assert("bottom"@.len() != "right"@.len());
            assert("bottom"@.len() != "center-right"@.len());
            assert("bottom"@.len() != "cr"@.len());
            assert("bottom"@.len() != "bottom-left"@.len());
            assert("bottom"@.len() != "bl"@.len());
        },
        Placement::BottomRight => {
            assert("bottom-right"@.len() != "top-left"@.len());
            assert("bottom-right"@.len() != "tl"@.len());
            assert("bottom-right"@.len() != "top"@.len());
            assert("bottom-right"@.len() != "top-center"@.len());
            assert("bottom-right"@.len() != "tc"@.len());
            assert("bottom-right"@.len() != "top-right"@.len());
            assert("bottom-right"@.len() != "tr"@.len());
            assert("bottom-right"@.len() != "left"@.len());
            assert("bottom-right"@.len() != "center-left"@.len());
            assert("bottom-right"@.len() != "cl"@.len());
            assert("bottom-right"@.len() != "center"@.len());
            assert("bottom-right"@.len() != "middle"@.len());
            assert("bottom-right"@.len() != "right"@.len());
            assert("bottom-right"@[0] != "center-right"@[0]);
            assert("bottom-right"@.len() != "cr"@.len());
            assert("bottom-right"@.len() != "bottom-left"@.len());
            assert("bottom-right"@.len() != "bl"@.len());
            assert("bottom-right"@.len() != "bottom"@.len());
            assert("bottom-right"@.len() != "bottom-center"@.len());
            assert("bottom-right"@.len() != "bc"@.len());
        },
    }
}

} // verus!
