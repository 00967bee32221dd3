//! Sizes of the overlay's parts and where the window goes on the monitor.
//! Every size is in pixels; a function's `requires` asks only that the sums
//! it makes fit in an `i32`.
use vstd::prelude::*;
use crate::model::config::{placement_horizontal, placement_vertical, AxisPlacement, Config, Placement};
use crate::model::lyrics::LyricsLayout;
use crate::ui::style::at_least;

verus! {

/// The gap between the artwork and a multi-line lyrics panel.
pub const LYRICS_PANEL_GAP_PX: i32 = 8;

pub open spec fn fits_i32(x: int) -> bool {
    i32::MIN <= x <= i32::MAX
}

/// Twice the border width, which is never negative.
pub open spec fn border_pair(c: Config) -> int {
    2 * at_least(c.border_width as int, 0)
}

/// The artwork frame: the artwork with its border on both sides.
pub open spec fn cover_size(c: Config) -> (int, int) {
    (c.width + border_pair(c), c.height + border_pair(c))
}

/// The left band's width and the top band's height; a band that is off,
/// or all metadata being off, takes no room.
pub open spec fn band_sizes(c: Config) -> (int, int) {
    if !c.metadata.enabled {
        (0, 0)
    } else {
        (
            if c.metadata.left.enabled {
                at_least(c.metadata.left.band_size_px as int, 0)
            } else {
                0
            },
            if c.metadata.top.enabled {
                at_least(c.metadata.top.band_size_px as int, 0)
            } else {
                0
            },
        )
    }
}

/// The artwork frame with the metadata bands.
pub open spec fn base_size(c: Config) -> (int, int) {
    (cover_size(c).0 + band_sizes(c).0, cover_size(c).1 + band_sizes(c).1)
}

/// The height of a single-line lyrics strip: the font and its padding,
/// with room to spare, and never under 40.
pub open spec fn singleline_height(c: Config) -> int {
    at_least(
        at_least(c.lyrics.style.font_size_px as int, 1) + 2 * at_least(
            c.lyrics.style.padding_px as int,
            0,
        ) + 8,
        40,
    )
}

/// The width of a multi-line lyrics panel, never under 120.
pub open spec fn panel_width(c: Config) -> int {
    at_least(c.lyrics.panel_width as int, 120)
}

/// The room a multi-line panel takes on the left.
pub open spec fn panel_left_width(c: Config) -> int {
    if c.lyrics.layout == LyricsLayout::MultiLine {
        panel_width(c) + LYRICS_PANEL_GAP_PX
    } else {
        0
    }
}

/// The room a single-line strip takes at the bottom.
pub open spec fn panel_bottom_height(c: Config) -> int {
    if c.lyrics.layout == LyricsLayout::SingleLine {
        singleline_height(c)
    } else {
        0
    }
}

/// The size of the lyrics frame.
pub open spec fn lyrics_size(c: Config) -> (int, int) {
    match c.lyrics.layout {
        LyricsLayout::SingleLine => (base_size(c).0, singleline_height(c)),
        LyricsLayout::MultiLine => (panel_width(c), base_size(c).1),
    }
}

/// The size of the whole window.
pub open spec fn window_size(c: Config) -> (int, int) {
    (base_size(c).0 + panel_left_width(c), base_size(c).1 + panel_bottom_height(c))
}

/// The artwork frame's sums fit.
pub open spec fn cover_fits(c: Config) -> bool {
    fits_i32(border_pair(c)) && fits_i32(cover_size(c).0) && fits_i32(cover_size(c).1)
}

/// The sums up to the frame with its bands fit.
pub open spec fn base_fits(c: Config) -> bool {
    cover_fits(c) && fits_i32(base_size(c).0) && fits_i32(base_size(c).1)
}

/// The single-line strip's sums fit.
pub open spec fn singleline_fits(c: Config) -> bool {
    let pad = 2 * at_least(c.lyrics.style.padding_px as int, 0);
    &&& fits_i32(pad)
    &&& fits_i32(at_least(c.lyrics.style.font_size_px as int, 1) + pad)
    &&& fits_i32(at_least(c.lyrics.style.font_size_px as int, 1) + pad + 8)
}

/// The multi-line panel's sum fits.
pub open spec fn panel_fits(c: Config) -> bool {
    fits_i32(panel_width(c) + LYRICS_PANEL_GAP_PX)
}

/// The sums of the window size fit.
pub open spec fn window_fits(c: Config) -> bool {
    &&& base_fits(c)
    &&& c.lyrics.layout == LyricsLayout::MultiLine ==> panel_fits(c)
    &&& c.lyrics.layout == LyricsLayout::SingleLine ==> singleline_fits(c)
    &&& fits_i32(window_size(c).0)
    &&& fits_i32(window_size(c).1)
}

fn max_i32(a: i32, b: i32) -> (r: i32)
    ensures
        r == at_least(a as int, b as int),
{
    if a >= b {
        a
    } else {
        b
    }
}

/// The size of the artwork frame, border included.
pub fn cover_frame_size(config: &Config) -> (r: (i32, i32))
    requires
        cover_fits(*config),
    ensures
        r.0 == cover_size(*config).0,
        r.1 == cover_size(*config).1,
{
    let border = max_i32(config.border_width, 0) * 2;
    (config.width + border, config.height + border)
}

/// The left band's width and the top band's height.
pub fn metadata_band_sizes(config: &Config) -> (r: (i32, i32))
    ensures
        r.0 == band_sizes(*config).0,
        r.1 == band_sizes(*config).1,
{
    if !config.metadata.enabled {
        return (0, 0);
    }
    let left_width = if config.metadata.left.enabled {
        max_i32(config.metadata.left.band_size_px, 0)
    } else {
        0
    };
    let top_height = if config.metadata.top.enabled {
        max_i32(config.metadata.top.band_size_px, 0)
    } else {
        0
    };
    (left_width, top_height)
}

/// The artwork frame with the metadata bands.
pub fn panel_base_size(config: &Config) -> (r: (i32, i32))
    requires
        base_fits(*config),
    ensures
        r.0 == base_size(*config).0,
        r.1 == base_size(*config).1,
{
    let (cover_width, cover_height) = cover_frame_size(config);
    let (left_width, top_height) = metadata_band_sizes(config);
    (cover_width + left_width, cover_height + top_height)
}

/// The height of a single-line lyrics strip.
pub fn lyrics_singleline_height(config: &Config) -> (r: i32)
    requires
        singleline_fits(*config),
    ensures
        r == singleline_height(*config),
{
    let style = &config.lyrics.style;
    max_i32(max_i32(style.font_size_px, 1) + max_i32(style.padding_px, 0) * 2 + 8, 40)
}

/// The size of the lyrics frame: a strip as wide as the panel, or a column
/// as high as it.
pub fn lyrics_frame_size(config: &Config) -> (r: (i32, i32))
    requires
        base_fits(*config),
        config.lyrics.layout == LyricsLayout::SingleLine ==> singleline_fits(*config),
    ensures
        r.0 == lyrics_size(*config).0,
        r.1 == lyrics_size(*config).1,
{
    let (base_width, base_height) = panel_base_size(config);
    match config.lyrics.layout {
        LyricsLayout::SingleLine => (base_width, lyrics_singleline_height(config)),
        LyricsLayout::MultiLine => (max_i32(config.lyrics.panel_width, 120), base_height),
    }
}

/// The room a multi-line panel takes on the left, gap included.
pub fn lyrics_panel_left_width(config: &Config) -> (r: i32)
    requires
        config.lyrics.layout == LyricsLayout::MultiLine ==> panel_fits(*config),
    ensures
        r == panel_left_width(*config),
{
    if config.lyrics.layout == LyricsLayout::MultiLine {
        max_i32(config.lyrics.panel_width, 120) + LYRICS_PANEL_GAP_PX
    } else {
        0
    }
}

/// The room a single-line strip takes at the bottom.
pub fn lyrics_panel_bottom_height(config: &Config) -> (r: i32)
    requires
        config.lyrics.layout == LyricsLayout::SingleLine ==> singleline_fits(*config),
    ensures
        r == panel_bottom_height(*config),
{
    if config.lyrics.layout == LyricsLayout::SingleLine {
        lyrics_singleline_height(config)
    } else {
        0
    }
}

/// The size of the whole window.
pub fn layout_window_size(config: &Config) -> (r: (i32, i32))
    requires
        window_fits(*config),
    ensures
        r.0 == window_size(*config).0,
        r.1 == window_size(*config).1,
{
    let (base_width, base_height) = panel_base_size(config);
    (
        base_width + lyrics_panel_left_width(config),
        base_height + lyrics_panel_bottom_height(config),
    )
}

/// `x / 2` rounded toward zero, as Rust's `/` does.
pub open spec fn half_toward_zero(x: int) -> int {
    if x >= 0 {
        x / 2
    } else {
        -((-x) / 2)
    }
}

/// Where on one axis the window starts.
pub open spec fn axis_position(alignment: AxisPlacement, available: int, size: int, offset: int) -> int {
    match alignment {
        AxisPlacement::Start => offset,
        AxisPlacement::Center => half_toward_zero(available - size) + offset,
        AxisPlacement::End => available - size - offset,
    }
}

/// The sums of `axis_position` fit.
pub open spec fn axis_fits(alignment: AxisPlacement, available: int, size: int, offset: int) -> bool {
    match alignment {
        AxisPlacement::Start => true,
        AxisPlacement::Center => fits_i32(available - size) && fits_i32(
            half_toward_zero(available - size) + offset,
        ),
        AxisPlacement::End => fits_i32(available - size) && fits_i32(available - size - offset),
    }
}

/// The window's offset on one axis of a monitor `available` pixels long:
/// from the start, centred, or from the end.
pub fn axis_offset(alignment: AxisPlacement, available: i32, size: i32, offset: i32) -> (r: i32)
    requires
        axis_fits(alignment, available as int, size as int, offset as int),
    ensures
        r == axis_position(alignment, available as int, size as int, offset as int),
{
    match alignment {
        AxisPlacement::Start => offset,
        AxisPlacement::Center => {
            let d = available - size;
            let half = if d >= 0 {
                d / 2
            } else if d == i32::MIN {
                -1073741824i32
            } else {
                -((-d) / 2)
            };
            half + offset
        },
        AxisPlacement::End => available - size - offset,
    }
}

/// An edge of the monitor that the window can be anchored to.
#[derive(Clone, Copy, Debug, PartialEq, Eq, Structural)]
pub enum ScreenEdge {
    Left,
    Right,
    Top,
    Bottom,
}

/// The corner edges of a placement that needs no monitor geometry.
pub open spec fn corner_edges(placement: Placement) -> Option<(ScreenEdge, ScreenEdge)> {
    match placement {
        Placement::TopLeft => Some((ScreenEdge::Left, ScreenEdge::Top)),
        Placement::TopRight => Some((ScreenEdge::Right, ScreenEdge::Top)),
        Placement::BottomLeft => Some((ScreenEdge::Left, ScreenEdge::Bottom)),
        Placement::BottomRight => Some((ScreenEdge::Right, ScreenEdge::Bottom)),
        _ => None,
    }
}

/// The edges to anchor to when the monitor's size is not known: only the
/// corner placements have them.
pub fn fallback_anchor_edges(placement: Placement) -> (r: Option<(ScreenEdge, ScreenEdge)>)
    ensures
        r == corner_edges(placement),
{
    match placement {
        Placement::TopLeft => Some((ScreenEdge::Left, ScreenEdge::Top)),
        Placement::TopRight => Some((ScreenEdge::Right, ScreenEdge::Top)),
        Placement::BottomLeft => Some((ScreenEdge::Left, ScreenEdge::Bottom)),
        Placement::BottomRight => Some((ScreenEdge::Right, ScreenEdge::Bottom)),
        Placement::Top | Placement::Left | Placement::Center | Placement::Right
        | Placement::Bottom => None,
    }
}

/// Where the window goes: anchored to two edges, with a margin from each.
#[derive(Clone, Copy, Debug, PartialEq, Eq, Structural)]
pub struct WindowAnchor {
    pub horizontal_edge: ScreenEdge,
    pub vertical_edge: ScreenEdge,
    pub margin_x: i32,
    pub margin_y: i32,
    /// The placement needed the monitor's size, which was not known, so
    /// the window went to the top-left corner.
    pub fell_back: bool,
}

/// The anchor of the window on a monitor of the given size, or, when the
/// size is not known, at the placement's corner.
pub open spec fn anchor_for(c: Config, monitor_size: Option<(i32, i32)>) -> WindowAnchor {
    match monitor_size {
        Some((w, h)) => WindowAnchor {
            horizontal_edge: ScreenEdge::Left,
            vertical_edge: ScreenEdge::Top,
            margin_x: axis_position(
                placement_horizontal(c.placement),
                w as int,
                window_size(c).0,
                c.offset_x as int,
            ) as i32,
            margin_y: axis_position(
                placement_vertical(c.placement),
                h as int,
                window_size(c).1,
                c.offset_y as int,
            ) as i32,
            fell_back: false,
        },
        None => match corner_edges(c.placement) {
            Some((he, ve)) => WindowAnchor {
                horizontal_edge: he,
                vertical_edge: ve,
                margin_x: c.offset_x,
                margin_y: c.offset_y,
                fell_back: false,
            },
            None => WindowAnchor {
                horizontal_edge: ScreenEdge::Left,
                vertical_edge: ScreenEdge::Top,
                margin_x: c.offset_x,
                margin_y: c.offset_y,
                fell_back: true,
            },
        },
    }
}

/// The sums of the placement on a monitor of the given size fit.
pub open spec fn anchor_fits(c: Config, monitor_size: Option<(i32, i32)>) -> bool {
    match monitor_size {
        Some((w, h)) => {
            &&& window_fits(c)
            &&& axis_fits(placement_horizontal(c.placement), w as int, window_size(c).0, c.offset_x as int)
            &&& axis_fits(placement_vertical(c.placement), h as int, window_size(c).1, c.offset_y as int)
        },
        None => true,
    }
}

/// Where the window goes on a monitor of `monitor_size` (width, height),
/// or, when no monitor was found, at the placement's corner.
pub fn window_anchor(config: &Config, monitor_size: Option<(i32, i32)>) -> (r: WindowAnchor)
    requires
        anchor_fits(*config, monitor_size),
    ensures
        r == anchor_for(*config, monitor_size),
{
    match monitor_size {
        Some((width, height)) => {
            let (window_width, window_height) = layout_window_size(config);
            let x = axis_offset(config.placement.horizontal(), width, window_width, config.offset_x);
            let y = axis_offset(config.placement.vertical(), height, window_height, config.offset_y);
            WindowAnchor {
                horizontal_edge: ScreenEdge::Left,
                vertical_edge: ScreenEdge::Top,
                margin_x: x,
                margin_y: y,
                fell_back: false,
            }
        },
        None => match fallback_anchor_edges(config.placement) {
            Some((horizontal_edge, vertical_edge)) => WindowAnchor {
                horizontal_edge,
                vertical_edge,
                margin_x: config.offset_x,
                margin_y: config.offset_y,
                fell_back: false,
            },
            None => WindowAnchor {
                horizontal_edge: ScreenEdge::Left,
                vertical_edge: ScreenEdge::Top,
                margin_x: config.offset_x,
                margin_y: config.offset_y,
                fell_back: true,
            },
        },
    }
}

/// Each placement puts the window where its name says. On a monitor of
/// `w` by `h`, the top placements (top-left, top, top-right) put the
/// window's top `offset_y` below the monitor's top, the bottom ones its
/// bottom `offset_y` above the monitor's bottom, and the middle row
/// centres it, moved down by `offset_y`; the left placements put its left
/// side `offset_x` from the monitor's left, the right ones its right side
/// `offset_x` from the monitor's right, and the middle column centres it.
/// With no monitor, each corner placement anchors to its own two edges.
pub proof fn law_placement_puts_window_where_named(c: Config, monitor_size: Option<(i32, i32)>)
    requires
        anchor_fits(c, monitor_size),
    ensures
        ({
            let a = anchor_for(c, monitor_size);
            match monitor_size {
                Some((w, h)) => {
                    &&& a.horizontal_edge == ScreenEdge::Left && a.vertical_edge == ScreenEdge::Top
                    &&& (c.placement == Placement::TopLeft || c.placement == Placement::Top
                        || c.placement == Placement::TopRight) ==> a.margin_y == c.offset_y
                    &&& (c.placement == Placement::Left || c.placement == Placement::Center
                        || c.placement == Placement::Right) ==> a.margin_y == half_toward_zero(
                        h - window_size(c).1,
                    ) + c.offset_y
                    &&& (c.placement == Placement::BottomLeft || c.placement == Placement::Bottom
                        || c.placement == Placement::BottomRight) ==> a.margin_y + window_size(c).1
                        + c.offset_y == h
                    &&& (c.placement == Placement::TopLeft || c.placement == Placement::Left
                        || c.placement == Placement::BottomLeft) ==> a.margin_x == c.offset_x
                    &&& (c.placement == Placement::Top || c.placement == Placement::Center
                        || c.placement == Placement::Bottom) ==> a.margin_x == half_toward_zero(
                        w - window_size(c).0,
                    ) + c.offset_x
                    &&& (c.placement == Placement::TopRight || c.placement == Placement::Right
                        || c.placement == Placement::BottomRight) ==> a.margin_x + window_size(c).0
                        + c.offset_x == w
                },
                None => {
                    &&& c.placement == Placement::TopLeft ==> a.horizontal_edge == ScreenEdge::Left
                        && a.vertical_edge == ScreenEdge::Top && !a.fell_back
                    &&& c.placement == Placement::TopRight ==> a.horizontal_edge == ScreenEdge::Right
                        && a.vertical_edge == ScreenEdge::Top && !a.fell_back
                    &&& c.placement == Placement::BottomLeft ==> a.horizontal_edge == ScreenEdge::Left
                        && a.vertical_edge == ScreenEdge::Bottom && !a.fell_back
                    &&& c.placement == Placement::BottomRight ==> a.horizontal_edge
                        == ScreenEdge::Right && a.vertical_edge == ScreenEdge::Bottom && !a.fell_back
                    &&& a.margin_x == c.offset_x && a.margin_y == c.offset_y
                },
            }
        }),
{
}

/// The window grows with the artwork one pixel for one pixel on each axis,
/// and with a border that is not negative two pixels for each pixel of
/// its width on both axes; nothing else about it changes.
pub proof fn law_window_follows_artwork_and_border(c: Config, w: i32, h: i32, b: i32)
    ensures
        window_size(Config { width: w, height: h, ..c }) == (
            window_size(c).0 + (w - c.width),
            window_size(c).1 + (h - c.height),
        ),
        b >= 0 && c.border_width >= 0 ==> window_size(Config { border_width: b, ..c }) == (
            window_size(c).0 + 2 * (b - c.border_width),
            window_size(c).1 + 2 * (b - c.border_width),
        ),
{
}

/// The window holds the artwork frame with its bands, and a centred
/// window sits as far from one edge as from the other, give or take a
/// pixel.
pub proof fn law_window_holds_frame(c: Config)
    ensures
        window_size(c).0 >= base_size(c).0,
        window_size(c).1 >= base_size(c).1,
        base_size(c).0 >= cover_size(c).0,
        base_size(c).1 >= cover_size(c).1,
{
}

/// On a monitor, a centred window with no offset leaves the same room on
/// both sides, give or take one pixel.
pub proof fn law_centered_window_is_balanced(available: int, size: int)
    requires
        size <= available,
    ensures
        ({
            let start = axis_position(AxisPlacement::Center, available, size, 0);
            let end = available - size - start;
            0 <= end - start <= 1
        }),
{
}

/// The rows of the multi-line lyrics panel: at least one, and an odd
/// number so that the current line has a middle row.
pub open spec fn panel_rows(lines_visible: nat) -> nat {
    let n = if lines_visible >= 1 {
        lines_visible
    } else {
        1
    };
    if n % 2 == 0 {
        n + 1
    } else {
        n
    }
}

/// The number of rows of the multi-line panel and the row of the current
/// line.
pub fn multiline_slots(lines_visible: usize) -> (r: (usize, usize))
    ensures
        r.0 == panel_rows(lines_visible as nat),
        r.1 == r.0 / 2,
{
    let n = if lines_visible >= 1 {
        lines_visible
    } else {
        1
    };
    let rows = if n % 2 == 0 {
        n + 1
    } else {
        n
    };
    (rows, rows / 2)
}

/// The current line's row has as many rows above it as below.
pub proof fn law_current_row_is_middle(lines_visible: nat)
    ensures
        panel_rows(lines_visible) % 2 == 1,
        panel_rows(lines_visible) == 2 * (panel_rows(lines_visible) / 2) + 1,
        panel_rows(lines_visible) >= lines_visible,
{
}

/// A larger offset moves the window inward from the side it is placed at,
/// and, when centred, away from the centre towards the end.
pub proof fn law_offset_moves_inward(available: int, size: int, offset: int)
    ensures
        axis_position(AxisPlacement::Start, available, size, offset + 1) == axis_position(
            AxisPlacement::Start,
            available,
            size,
            offset,
        ) + 1,
        axis_position(AxisPlacement::End, available, size, offset + 1) == axis_position(
            AxisPlacement::End,
            available,
            size,
            offset,
        ) - 1,
        axis_position(AxisPlacement::Center, available, size, offset + 1) == axis_position(
            AxisPlacement::Center,
            available,
            size,
            offset,
        ) + 1,
        axis_position(AxisPlacement::End, available, size, 0) + size == available,
{
}

fn fits(x: i64) -> (r: bool)
    ensures
        r == fits_i32(x as int),
{
    -2147483648i64 <= x && x <= 2147483647i64
}

fn at_least_i64(a: i64, b: i64) -> (r: i64)
    ensures
        r == at_least(a as int, b as int),
{
    if a >= b {
        a
    } else {
        b
    }
}

/// Whether the window's sizes can be worked out in `i32`.
pub fn layout_fits(config: &Config) -> (r: bool)
    ensures
        r == window_fits(*config),
{
    let border = 2 * at_least_i64(config.border_width as i64, 0);
    let cover_w = config.width as i64 + border;
    let cover_h = config.height as i64 + border;
    let (left, top) = metadata_band_sizes(config);
    let base_w = cover_w + left as i64;
    let base_h = cover_h + top as i64;
    let pad = 2 * at_least_i64(config.lyrics.style.padding_px as i64, 0);
    let font = at_least_i64(config.lyrics.style.font_size_px as i64, 1);
    let single_ok = fits(pad) && fits(font + pad) && fits(font + pad + 8);
    let panel = at_least_i64(config.lyrics.panel_width as i64, 120) + 8;
    let panel_ok = fits(panel);
    let base_ok = fits(border) && fits(cover_w) && fits(cover_h) && fits(base_w) && fits(base_h);
    let multi = config.lyrics.layout == LyricsLayout::MultiLine;
    let single = config.lyrics.layout == LyricsLayout::SingleLine;
    if !base_ok || (multi && !panel_ok) || (single && !single_ok) {
        return false;
    }
    let left_room: i64 = if multi {
        panel
    } else {
        0
    };
    let bottom_room: i64 = if single {
        at_least_i64(font + pad + 8, 40)
    } else {
        0
    };
    fits(base_w + left_room) && fits(base_h + bottom_room)
}

/// Whether the window's place on a monitor of the given size can be
/// worked out in `i32`.
pub fn placement_fits(config: &Config, monitor_size: Option<(i32, i32)>) -> (r: bool)
    ensures
        r == anchor_fits(*config, monitor_size),
{
    match monitor_size {
        None => true,
        Some((width, height)) => {
            if !layout_fits(config) {
                return false;
            }
            let (window_width, window_height) = layout_window_size(config);
            axis_fits_exec(config.placement.horizontal(), width, window_width, config.offset_x)
                && axis_fits_exec(config.placement.vertical(), height, window_height, config.offset_y)
        },
    }
}

fn axis_fits_exec(alignment: AxisPlacement, available: i32, size: i32, offset: i32) -> (r: bool)
    ensures
        r == axis_fits(alignment, available as int, size as int, offset as int),
{
    let d = available as i64 - size as i64;
    match alignment {
        AxisPlacement::Start => true,
        AxisPlacement::Center => {
            let half = if d >= 0 {
                d / 2
            } else {
                -((-d) / 2)
            };
            fits(d) && fits(half + offset as i64)
        },
        AxisPlacement::End => fits(d) && fits(d - offset as i64),
    }
}

} // verus!
