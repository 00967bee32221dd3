//! The style sheet of the overlay, written from the configuration.
use vstd::prelude::*;
use crate::model::config::Config;
use crate::model::metadata::MetadataStyleConfig;
use crate::text::{push_signed_decimal, push_str, signed_decimal_text};

verus! {

/// `max(a, b)` on integers.
pub open spec fn at_least(a: int, b: int) -> int {
    if a >= b {
        a
    } else {
        b
    }
}

fn max_i32(a: i32, b: i32) -> (r: i32)
    ensures
        r == at_least(a as int, b as int),
{
    if a >= b {
        a
    } else {
        b
    }
}

/// The rule for the labels of one metadata section.
pub open spec fn label_css(selector: Seq<char>, style: MetadataStyleConfig) -> Seq<char> {
    selector + " .covermint-meta-label { color: "@ + style.text_color@ + "; background-color: "@
        + style.background_color@ + "; padding: "@ + signed_decimal_text(
        at_least(style.padding_px as int, 0),
    ) + "px; font-family: '"@ + style.font_family@ + "'; font-size: "@ + signed_decimal_text(
        at_least(style.font_size_px as int, 1),
    ) + "px; font-weight: "@ + signed_decimal_text(at_least(style.font_weight as int, 100))
        + "; }"@
}

/// The CSS rule for the labels of a metadata section: the padding is not
/// negative, the font size at least one pixel and the weight at least 100.
pub fn metadata_label_css(selector: &str, style: &MetadataStyleConfig) -> (r: String)
    ensures
        r@ == label_css(selector@, *style),
{
    let mut s = String::new();
    push_str(&mut s, selector);
    push_str(&mut s, " .covermint-meta-label { color: ");
    push_str(&mut s, style.text_color.as_str());
    push_str(&mut s, "; background-color: ");
    push_str(&mut s, style.background_color.as_str());
    push_str(&mut s, "; padding: ");
    push_signed_decimal(&mut s, max_i32(style.padding_px, 0) as i64);
    push_str(&mut s, "px; font-family: '");
    push_str(&mut s, style.font_family.as_str());
    push_str(&mut s, "'; font-size: ");
    push_signed_decimal(&mut s, max_i32(style.font_size_px, 1) as i64);
    push_str(&mut s, "px; font-weight: ");
    push_signed_decimal(&mut s, max_i32(style.font_weight, 100) as i64);
    push_str(&mut s, "; }");
    assert(s@ =~= label_css(selector@, *style));
    s
}

/// The rules for the window, the artwork frame and its stage.
pub open spec fn frame_css(corner_radius: int, border_width: int, border_color: Seq<char>) -> Seq<char> {
    ".covermint-window { background-color: transparent; box-shadow: none; border-radius: "@
        + signed_decimal_text(corner_radius) + "px; }\n"@
        + ".covermint-artwork { background-color: transparent; box-shadow: none; border-style: solid; border-width: "@
        + signed_decimal_text(border_width) + "px; border-color: "@ + border_color
        + "; border-radius: "@ + signed_decimal_text(corner_radius) + "px; }\n"@
        + ".covermint-artwork-stage { background-color: transparent; box-shadow: none; border-radius: "@
        + signed_decimal_text(at_least(corner_radius - border_width, 0)) + "px; }\n"@
}

/// The rules for the two metadata bands and the corner between them.
pub open spec fn band_css(top_band: int, left_band: int, corner_color: Seq<char>) -> Seq<char> {
    ".covermint-meta-top { background-color: transparent; min-height: "@ + signed_decimal_text(
        top_band,
    ) + "px; }\n"@ + ".covermint-meta-left { background-color: transparent; min-width: "@
        + signed_decimal_text(left_band) + "px; }\n"@
        + ".covermint-meta-corner { background-color: "@ + corner_color + "; }\n"@
}

/// The whole style sheet: sizes below zero count as zero.
pub open spec fn styles_text(c: Config) -> Seq<char> {
    frame_css(
        at_least(c.corner_radius as int, 0),
        at_least(c.border_width as int, 0),
        c.border_color@,
    ) + band_css(
        at_least(c.metadata.top.band_size_px as int, 0),
        at_least(c.metadata.left.band_size_px as int, 0),
        c.metadata.top.style.background_color@,
    ) + label_css(".covermint-meta-top"@, c.metadata.top.style) + "\n"@ + label_css(
        ".covermint-meta-left"@,
        c.metadata.left.style,
    )
}

fn push_frame_css(s: &mut String, corner_radius: i32, border_width: i32, border_color: &str)
    requires
        corner_radius >= 0,
        border_width >= 0,
    ensures
        final(s)@ == old(s)@ + frame_css(corner_radius as int, border_width as int, border_color@),
{
    let inner_radius = max_i32(corner_radius - border_width, 0);
    push_str(
        s,
        ".covermint-window { background-color: transparent; box-shadow: none; border-radius: ",
    );
    push_signed_decimal(s, corner_radius as i64);
    push_str(s, "px; }\n");
    push_str(
        s,
        ".covermint-artwork { background-color: transparent; box-shadow: none; border-style: solid; border-width: ",
    );
    push_signed_decimal(s, border_width as i64);
    push_str(s, "px; border-color: ");
    push_str(s, border_color);
    push_str(s, "; border-radius: ");
    push_signed_decimal(s, corner_radius as i64);
    push_str(s, "px; }\n");
    push_str(
        s,
        ".covermint-artwork-stage { background-color: transparent; box-shadow: none; border-radius: ",
    );
    push_signed_decimal(s, inner_radius as i64);
    push_str(s, "px; }\n");
    assert(s@ =~= old(s)@ + frame_css(corner_radius as int, border_width as int, border_color@));
}

fn push_band_css(s: &mut String, top_band: i32, left_band: i32, corner_color: &str)
    ensures
        final(s)@ == old(s)@ + band_css(top_band as int, left_band as int, corner_color@),
{
    push_str(s, ".covermint-meta-top { background-color: transparent; min-height: ");
    push_signed_decimal(s, top_band as i64);
    push_str(s, "px; }\n");
    push_str(s, ".covermint-meta-left { background-color: transparent; min-width: ");
    push_signed_decimal(s, left_band as i64);
    push_str(s, "px; }\n");
    push_str(s, ".covermint-meta-corner { background-color: ");
    push_str(s, corner_color);
    push_str(s, "; }\n");
    assert(s@ =~= old(s)@ + band_css(top_band as int, left_band as int, corner_color@));
}

/// The style sheet of the overlay.
pub fn styles_css(config: &Config) -> (r: String)
    ensures
        r@ == styles_text(*config),
{
    let mut s = String::new();
    push_frame_css(
        &mut s,
        max_i32(config.corner_radius, 0),
        max_i32(config.border_width, 0),
        config.border_color.as_str(),
    );
    push_band_css(
        &mut s,
        max_i32(config.metadata.top.band_size_px, 0),
        max_i32(config.metadata.left.band_size_px, 0),
        config.metadata.top.style.background_color.as_str(),
    );
    let top = metadata_label_css(".covermint-meta-top", &config.metadata.top.style);
    push_str(&mut s, top.as_str());
    push_str(&mut s, "\n");
    let left = metadata_label_css(".covermint-meta-left", &config.metadata.left.style);
    push_str(&mut s, left.as_str());
    assert(s@ =~= styles_text(*config));
    s
}

} // verus!
