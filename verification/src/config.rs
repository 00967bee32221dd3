//! Settings from `config.toml`: each setting the file gives overrides the
//! one in force, in a fixed order; the first value that does not read
//! stops the overriding, and what was overridden before it stays.
use vstd::prelude::*;

use crate::metadata::template::{compiled, validate_template};
use crate::model::config::{
    artwork_fit_parsed, placement_parsed, shell_layer_parsed, transition_parsed, ArtworkFit,
    Config, Placement, ShellLayer, Transition,
};
use crate::model::lyrics::{lyrics_layout_parsed, LyricsConfig, LyricsLayout};
use crate::model::metadata::{
    animation_mode_parsed, reveal_direction_parsed, section_align_parsed, truncate_mode_parsed,
    MetadataSectionConfig, MetadataStyleConfig, RevealDirection, SectionAlign, TextAnimationConfig,
    TextAnimationMode, TruncateMode,
};
use crate::text::{message, same_outcome, sat_mul, saturating_mul};

verus! {

/// The opacity the file gives, as the caller read it: its bits, whether it
/// lies in `0.0..=1.0`, and its text as `Display` writes it.
pub struct FileOpacity {
    pub bits: u64,
    pub in_unit_range: bool,
    pub text: String,
}

pub struct FileConfig {
    pub monitor: Option<String>,
    pub player: Option<String>,
    pub size: Option<i32>,
    pub width: Option<i32>,
    pub height: Option<i32>,
    pub artwork_fit: Option<String>,
    pub placement: Option<String>,
    pub offset_x: Option<i32>,
    pub offset_y: Option<i32>,
    pub margin: Option<i32>,
    pub border_width: Option<i32>,
    pub border_color: Option<String>,
    pub corner_radius: Option<i32>,
    pub opacity: Option<FileOpacity>,
    pub transition: Option<String>,
    pub transition_ms: Option<u32>,
    pub poll_seconds: Option<u32>,
    pub show_paused: Option<bool>,
    pub no_cache: Option<bool>,
    pub cache_max_files: Option<usize>,
    pub cache_max_mb: Option<u64>,
    pub layer: Option<String>,
    pub metadata: Option<FileMetadata>,
    pub lyrics: Option<FileLyrics>,
}

pub struct FileMetadata {
    pub enabled: Option<bool>,
    pub style: Option<FileMetadataStyle>,
    pub animation: Option<FileAnimation>,
    pub top: Option<FileMetadataSection>,
    pub left: Option<FileMetadataSection>,
}

pub struct FileMetadataSection {
    pub enabled: Option<bool>,
    pub template: Option<String>,
    pub align: Option<String>,
    pub truncate: Option<String>,
    pub band_size_px: Option<i32>,
    pub style: Option<FileMetadataStyle>,
    pub animation: Option<FileAnimation>,
}

pub struct FileMetadataStyle {
    pub font_family: Option<String>,
    pub font_size_px: Option<i32>,
    pub font_weight: Option<i32>,
    pub text_color: Option<String>,
    pub background_color: Option<String>,
    pub padding_px: Option<i32>,
}

pub struct FileAnimation {
    pub mode: Option<String>,
    pub direction: Option<String>,
    pub duration_ms: Option<u32>,
}

pub struct FileLyrics {
    pub enabled: Option<bool>,
    pub layout: Option<String>,
    pub lines_visible: Option<usize>,
    pub panel_width: Option<i32>,
    pub smooth_scroll: Option<bool>,
    pub font_family: Option<String>,
    pub font_size_px: Option<i32>,
    pub text_color: Option<String>,
    pub active_line_color: Option<String>,
    pub background_color: Option<String>,
    pub padding_px: Option<i32>,
}

// ---------------------------------------------------------------------------
// Specification
// ---------------------------------------------------------------------------

pub open spec fn or_keep<T>(o: Option<T>, current: T) -> T {
    match o {
        Some(v) => v,
        None => current,
    }
}

pub open spec fn at_least(o: Option<i32>, low: i32, current: i32) -> i32 {
    match o {
        Some(v) => if v < low {
            low
        } else {
            v
        },
        None => current,
    }
}

/// A style with the file's style settings over it.
pub open spec fn styled(s: MetadataStyleConfig, src: FileMetadataStyle) -> MetadataStyleConfig {
    MetadataStyleConfig {
        font_family: or_keep(src.font_family, s.font_family),
        font_size_px: at_least(src.font_size_px, 1, s.font_size_px),
        font_weight: at_least(src.font_weight, 100, s.font_weight),
        text_color: or_keep(src.text_color, s.text_color),
        background_color: or_keep(src.background_color, s.background_color),
        padding_px: at_least(src.padding_px, 0, s.padding_px),
    }
}

/// An animation with the file's direction and duration over it.
pub open spec fn animation_tail(a: TextAnimationConfig, src: FileAnimation) -> (
    TextAnimationConfig,
    Result<(), Seq<char>>,
) {
    match src.direction {
        Some(d) => match reveal_direction_parsed(d@) {
            Err(e) => (a, Err(e)),
            Ok(dir) => (
                TextAnimationConfig {
                    direction: dir,
                    duration_ms: or_keep(src.duration_ms, a.duration_ms),
                    ..a
                },
                Ok(()),
            ),
        },
        None => (TextAnimationConfig { duration_ms: or_keep(src.duration_ms, a.duration_ms), ..a }, Ok(())),
    }
}

/// An animation with the file's animation settings over it.
pub open spec fn animation_override(a: TextAnimationConfig, src: FileAnimation) -> (
    TextAnimationConfig,
    Result<(), Seq<char>>,
) {
    match src.mode {
        Some(m) => match animation_mode_parsed(m@) {
            Err(e) => (a, Err(e)),
            Ok(mode) => animation_tail(TextAnimationConfig { mode, ..a }, src),
        },
        None => animation_tail(a, src),
    }
}

/// The part of a section override after its truncation setting.
pub open spec fn section_tail(s: MetadataSectionConfig, src: FileMetadataSection) -> (
    MetadataSectionConfig,
    Result<(), Seq<char>>,
) {
    let s1 = MetadataSectionConfig {
        band_size_px: at_least(src.band_size_px, 0, s.band_size_px),
        style: match src.style {
            Some(st) => styled(s.style, st),
            None => s.style,
        },
        ..s
    };
    match src.animation {
        Some(a) => {
            let (anim, r) = animation_override(s1.animation, a);
            (MetadataSectionConfig { animation: anim, ..s1 }, r)
        },
        None => (s1, Ok(())),
    }
}

/// A metadata section with the file's settings for it over it.
pub open spec fn section_override(s: MetadataSectionConfig, src: FileMetadataSection) -> (
    MetadataSectionConfig,
    Result<(), Seq<char>>,
) {
    let s1 = MetadataSectionConfig {
        enabled: or_keep(src.enabled, s.enabled),
        template: or_keep(src.template, s.template),
        ..s
    };
    match src.align {
        Some(v) => match section_align_parsed(v@) {
            Err(e) => (s1, Err(e)),
            Ok(align) => {
                let s2 = MetadataSectionConfig { align, ..s1 };
                match src.truncate {
                    Some(t) => match truncate_mode_parsed(t@) {
                        Err(e) => (s2, Err(e)),
                        Ok(truncate) => section_tail(MetadataSectionConfig { truncate, ..s2 }, src),
                    },
                    None => section_tail(s2, src),
                }
            },
        },
        None => match src.truncate {
            Some(t) => match truncate_mode_parsed(t@) {
                Err(e) => (s1, Err(e)),
                Ok(truncate) => section_tail(MetadataSectionConfig { truncate, ..s1 }, src),
            },
            None => section_tail(s1, src),
        },
    }
}

pub open spec fn lyrics_settings(c: LyricsConfig, src: FileLyrics) -> LyricsConfig {
    LyricsConfig {
        lines_visible: match src.lines_visible {
            Some(n) => if n < 1 {
                1
            } else {
                n
            },
            None => c.lines_visible,
        },
        panel_width: at_least(src.panel_width, 120, c.panel_width),
        smooth_scroll: or_keep(src.smooth_scroll, c.smooth_scroll),
        style: crate::model::lyrics::LyricsStyleConfig {
            font_family: or_keep(src.font_family, c.style.font_family),
            font_size_px: at_least(src.font_size_px, 1, c.style.font_size_px),
            text_color: or_keep(src.text_color, c.style.text_color),
            active_line_color: or_keep(src.active_line_color, c.style.active_line_color),
            background_color: or_keep(src.background_color, c.style.background_color),
            padding_px: at_least(src.padding_px, 0, c.style.padding_px),
        },
        ..c
    }
}

/// The lyrics settings with the file's over them (all but `enabled`).
pub open spec fn lyrics_override(c: LyricsConfig, src: FileLyrics) -> (
    LyricsConfig,
    Result<(), Seq<char>>,
) {
    match src.layout {
        Some(v) => match lyrics_layout_parsed(v@) {
            Err(e) => (c, Err(e)),
            Ok(layout) => (lyrics_settings(LyricsConfig { layout, ..c }, src), Ok(())),
        },
        None => (lyrics_settings(c, src), Ok(())),
    }
}

// ---------------------------------------------------------------------------
// Overrides of parts
// ---------------------------------------------------------------------------

fn keep_or_take(current: &mut String, o: &Option<String>)
    ensures
        *final(current) == or_keep(*o, *old(current)),
{
    match o {
        Some(v) => {
            *current = v.clone();
        },
        None => {},
    }
}

fn at_least_exec(o: Option<i32>, low: i32, current: i32) -> (r: i32)
    ensures
        r == at_least(o, low, current),
{
    match o {
        Some(v) => if v < low {
            low
        } else {
            v
        },
        None => current,
    }
}

/// Lays the file's style settings over a metadata style; sizes below their
/// least sensible value are raised to it.
pub fn apply_style_override(style: &mut MetadataStyleConfig, source: &FileMetadataStyle)
    ensures
        *final(style) == styled(*old(style), *source),
{
    keep_or_take(&mut style.font_family, &source.font_family);
    style.font_size_px = at_least_exec(source.font_size_px, 1, style.font_size_px);
    style.font_weight = at_least_exec(source.font_weight, 100, style.font_weight);
    keep_or_take(&mut style.text_color, &source.text_color);
    keep_or_take(&mut style.background_color, &source.background_color);
    style.padding_px = at_least_exec(source.padding_px, 0, style.padding_px);
}

/// Lays the file's animation settings over an animation.
pub fn apply_animation_override(animation: &mut TextAnimationConfig, source: &FileAnimation) -> (r:
    Result<(), String>)
    ensures
        *final(animation) == animation_override(*old(animation), *source).0,
        same_outcome(r, animation_override(*old(animation), *source).1),
{
    if let Some(mode) = &source.mode {
        animation.mode = TextAnimationMode::parse(mode.as_str())?;
    }
    if let Some(direction) = &source.direction {
        animation.direction = RevealDirection::parse(direction.as_str())?;
    }
    if let Some(duration_ms) = source.duration_ms {
        animation.duration_ms = duration_ms;
    }
    Ok(())
}

/// Lays the file's settings for a metadata section over it.
pub fn apply_section_override(section: &mut MetadataSectionConfig, source: &FileMetadataSection) -> (r:
    Result<(), String>)
    ensures
        *final(section) == section_override(*old(section), *source).0,
        same_outcome(r, section_override(*old(section), *source).1),
{
    if let Some(enabled) = source.enabled {
        section.enabled = enabled;
    }
    keep_or_take(&mut section.template, &source.template);
    if let Some(align) = &source.align {
        section.align = SectionAlign::parse(align.as_str())?;
    }
    if let Some(truncate) = &source.truncate {
        section.truncate = TruncateMode::parse(truncate.as_str())?;
    }
    section.band_size_px = at_least_exec(source.band_size_px, 0, section.band_size_px);
    if let Some(style) = &source.style {
        apply_style_override(&mut section.style, style);
    }
    if let Some(animation) = &source.animation {
        apply_animation_override(&mut section.animation, animation)?;
    }
    Ok(())
}

/// Lays the file's lyrics settings, all but `enabled`, over the lyrics
/// settings; sizes below their least sensible value are raised to it.
pub fn apply_lyrics_override(config: &mut LyricsConfig, source: &FileLyrics) -> (r: Result<
    (),
    String,
>)
    ensures
        *final(config) == lyrics_override(*old(config), *source).0,
        same_outcome(r, lyrics_override(*old(config), *source).1),
{
    if let Some(layout) = &source.layout {
        config.layout = LyricsLayout::parse(layout.as_str())?;
    }
    if let Some(lines_visible) = source.lines_visible {
        config.lines_visible = if lines_visible < 1 {
            1
        } else {
            lines_visible
        };
    }
    config.panel_width = at_least_exec(source.panel_width, 120, config.panel_width);
    if let Some(smooth_scroll) = source.smooth_scroll {
        config.smooth_scroll = smooth_scroll;
    }
    keep_or_take(&mut config.style.font_family, &source.font_family);
    config.style.font_size_px = at_least_exec(source.font_size_px, 1, config.style.font_size_px);
    keep_or_take(&mut config.style.text_color, &source.text_color);
    keep_or_take(&mut config.style.active_line_color, &source.active_line_color);
    keep_or_take(&mut config.style.background_color, &source.background_color);
    config.style.padding_px = at_least_exec(source.padding_px, 0, config.style.padding_px);
    Ok(())
}

// ---------------------------------------------------------------------------
// The whole file
// ---------------------------------------------------------------------------

/// Monitor, player and size.
#[verifier::opaque]
pub open spec fn settings_head(c: Config, f: FileConfig) -> Config {
    let c1 = Config {
        monitor_selector: or_keep(f.monitor, c.monitor_selector),
        player: or_keep(f.player, c.player),
        ..c
    };
    let c2 = match f.size {
        Some(n) => Config { width: n, height: n, ..c1 },
        None => c1,
    };
    Config { width: or_keep(f.width, c2.width), height: or_keep(f.height, c2.height), ..c2 }
}

/// The artwork fit.
#[verifier::opaque]
pub open spec fn fit_step(c: Config, f: FileConfig) -> Result<Config, Seq<char>> {
    match f.artwork_fit {
        Some(v) => match artwork_fit_parsed(v@) {
            Ok(artwork_fit) => Ok(Config { artwork_fit, ..c }),
            Err(e) => Err(e),
        },
        None => Ok(c),
    }
}

/// The placement.
#[verifier::opaque]
pub open spec fn placement_step(c: Config, f: FileConfig) -> Result<Config, Seq<char>> {
    match f.placement {
        Some(v) => match placement_parsed(v@) {
            Ok(placement) => Ok(Config { placement, ..c }),
            Err(e) => Err(e),
        },
        None => Ok(c),
    }
}

/// Offsets, margin, border and corner radius.
#[verifier::opaque]
pub open spec fn settings_middle(c: Config, f: FileConfig) -> Config {
    let c1 = Config {
        offset_x: or_keep(f.offset_x, c.offset_x),
        offset_y: or_keep(f.offset_y, c.offset_y),
        ..c
    };
    let c2 = match f.margin {
        Some(n) => Config { offset_x: n, offset_y: n, ..c1 },
        None => c1,
    };
    Config {
        border_width: or_keep(f.border_width, c2.border_width),
        border_color: or_keep(f.border_color, c2.border_color),
        corner_radius: or_keep(f.corner_radius, c2.corner_radius),
        ..c2
    }
}

pub open spec fn opacity_message(text: Seq<char>) -> Seq<char> {
    "unsupported opacity value '"@ + text + "', expected a number between 0.0 and 1.0"@
}

/// The opacity, which must lie in `0.0..=1.0`.
#[verifier::opaque]
pub open spec fn opacity_step(c: Config, f: FileConfig) -> Result<Config, Seq<char>> {
    match f.opacity {
        Some(o) => if o.in_unit_range {
            Ok(Config { opacity_bits: o.bits, ..c })
        } else {
            Err(opacity_message(o.text@))
        },
        None => Ok(c),
    }
}

/// The transition.
#[verifier::opaque]
pub open spec fn transition_step(c: Config, f: FileConfig) -> Result<Config, Seq<char>> {
    match f.transition {
        Some(v) => match transition_parsed(v@) {
            Ok(transition) => Ok(Config { transition, ..c }),
            Err(e) => Err(e),
        },
        None => Ok(c),
    }
}

/// Timing, visibility and cache settings.
#[verifier::opaque]
pub open spec fn settings_tail(c: Config, f: FileConfig) -> Config {
    Config {
        transition_ms: or_keep(f.transition_ms, c.transition_ms),
        poll_seconds: or_keep(f.poll_seconds, c.poll_seconds),
        show_paused: or_keep(f.show_paused, c.show_paused),
        cache_enabled: match f.no_cache {
            Some(b) => !b,
            None => c.cache_enabled,
        },
        cache_max_files: or_keep(f.cache_max_files, c.cache_max_files),
        cache_max_bytes: match f.cache_max_mb {
            Some(mb) => sat_mul(mb as nat, 1024 * 1024) as u64,
            None => c.cache_max_bytes,
        },
        ..c
    }
}

/// The layer.
#[verifier::opaque]
pub open spec fn layer_step(c: Config, f: FileConfig) -> Result<Config, Seq<char>> {
    match f.layer {
        Some(v) => match shell_layer_parsed(v@) {
            Ok(layer) => Ok(Config { layer, ..c }),
            Err(e) => Err(e),
        },
        None => Ok(c),
    }
}

/// Goes on with `next` after a step that succeeded; stops at `c` otherwise.
pub open spec fn stop_at(c: Config, step: Result<Config, Seq<char>>) -> (Config, Result<(), Seq<char>>) {
    match step {
        Ok(next) => (next, Ok(())),
        Err(e) => (c, Err(e)),
    }
}

/// The top-level settings of the file laid over `c`, up to the first that
/// does not read.
pub open spec fn settings_override(c: Config, f: FileConfig) -> (Config, Result<(), Seq<char>>) {
    let c1 = settings_head(c, f);
    match fit_step(c1, f) {
        Err(e) => (c1, Err(e)),
        Ok(c2) => match placement_step(c2, f) {
            Err(e) => (c2, Err(e)),
            Ok(c3) => {
                let c4 = settings_middle(c3, f);
                match opacity_step(c4, f) {
                    Err(e) => (c4, Err(e)),
                    Ok(c5) => match transition_step(c5, f) {
                        Err(e) => (c5, Err(e)),
                        Ok(c6) => {
                            let c7 = settings_tail(c6, f);
                            stop_at(c7, layer_step(c7, f))
                        },
                    },
                }
            },
        },
    }
}

pub open spec fn with_top(c: Config, s: MetadataSectionConfig) -> Config {
    Config { metadata: crate::model::metadata::MetadataConfig { top: s, ..c.metadata }, ..c }
}

pub open spec fn with_left(c: Config, s: MetadataSectionConfig) -> Config {
    Config { metadata: crate::model::metadata::MetadataConfig { left: s, ..c.metadata }, ..c }
}

/// `enabled` and the style of the `[metadata]` table.
#[verifier::opaque]
pub open spec fn metadata_head(c: Config, m: FileMetadata) -> Config {
    let c1 = Config {
        metadata: crate::model::metadata::MetadataConfig {
            enabled: or_keep(m.enabled, c.metadata.enabled),
            ..c.metadata
        },
        ..c
    };
    match m.style {
        Some(st) => with_left(
            with_top(c1, MetadataSectionConfig { style: styled(c1.metadata.top.style, st), ..c1.metadata.top }),
            MetadataSectionConfig { style: styled(c1.metadata.left.style, st), ..c1.metadata.left },
        ),
        None => c1,
    }
}

/// The animation of the `[metadata]` table laid over the top section's.
#[verifier::opaque]
pub open spec fn top_animation_step(c: Config, a: FileAnimation) -> (Config, Result<(), Seq<char>>) {
    let (anim, r) = animation_override(c.metadata.top.animation, a);
    (with_top(c, MetadataSectionConfig { animation: anim, ..c.metadata.top }), r)
}

/// The animation of the `[metadata]` table laid over the left section's.
#[verifier::opaque]
pub open spec fn left_animation_step(c: Config, a: FileAnimation) -> (Config, Result<(), Seq<char>>) {
    let (anim, r) = animation_override(c.metadata.left.animation, a);
    (with_left(c, MetadataSectionConfig { animation: anim, ..c.metadata.left }), r)
}

/// The `[metadata.top]` table.
#[verifier::opaque]
pub open spec fn top_section_step(c: Config, t: FileMetadataSection) -> (Config, Result<(), Seq<char>>) {
    let (s, r) = section_override(c.metadata.top, t);
    (with_top(c, s), r)
}

/// The `[metadata.left]` table.
#[verifier::opaque]
pub open spec fn left_section_step(c: Config, t: FileMetadataSection) -> (Config, Result<(), Seq<char>>) {
    let (s, r) = section_override(c.metadata.left, t);
    (with_left(c, s), r)
}

/// The file's `[metadata.top]` and `[metadata.left]` tables laid over `c`.
pub open spec fn sections_override(c: Config, m: FileMetadata) -> (Config, Result<(), Seq<char>>) {
    let (c1, r1) = match m.top {
        Some(t) => top_section_step(c, t),
        None => (c, Ok(())),
    };
    match r1 {
        Err(e) => (c1, Err(e)),
        Ok(_) => match m.left {
            Some(l) => left_section_step(c1, l),
            None => (c1, Ok(())),
        },
    }
}

/// The file's `[metadata]` table laid over `c`.
pub open spec fn metadata_override(c: Config, m: FileMetadata) -> (Config, Result<(), Seq<char>>) {
    let c1 = metadata_head(c, m);
    match m.animation {
        Some(a) => {
            let (c2, r2) = top_animation_step(c1, a);
            match r2 {
                Err(e) => (c2, Err(e)),
                Ok(_) => {
                    let (c3, r3) = left_animation_step(c2, a);
                    match r3 {
                        Err(e) => (c3, Err(e)),
                        Ok(_) => sections_override(c3, m),
                    }
                },
            }
        },
        None => sections_override(c1, m),
    }
}

/// The file's `[lyrics]` table laid over `c`, `enabled` last.
#[verifier::opaque]
pub open spec fn lyrics_table_override(c: Config, l: FileLyrics) -> (Config, Result<(), Seq<char>>) {
    let (lc, r) = lyrics_override(c.lyrics, l);
    let c1 = Config { lyrics: lc, ..c };
    match r {
        Err(e) => (c1, Err(e)),
        Ok(_) => (
            Config {
                lyrics: LyricsConfig { enabled: or_keep(l.enabled, c1.lyrics.enabled), ..c1.lyrics },
                ..c1
            },
            Ok(()),
        ),
    }
}

/// Everything the file sets, laid over `c` in order.
pub open spec fn file_override(c: Config, f: FileConfig) -> (Config, Result<(), Seq<char>>) {
    let (c1, r1) = settings_override(c, f);
    match r1 {
        Err(e) => (c1, Err(e)),
        Ok(_) => {
            let (c2, r2) = match f.metadata {
                Some(m) => metadata_override(c1, m),
                None => (c1, Ok(())),
            };
            match r2 {
                Err(e) => (c2, Err(e)),
                Ok(_) => match f.lyrics {
                    Some(l) => lyrics_table_override(c2, l),
                    None => (c2, Ok(())),
                },
            }
        },
    }
}

/// Lays a step that may fail over `config`; on failure `config` stays.
pub open spec fn stepped(old_c: Config, new_c: Config, r: Result<(), String>, step: Result<Config, Seq<char>>) -> bool {
    match step {
        Ok(c) => new_c == c && r is Ok,
        Err(e) => new_c == old_c && (r matches Err(m) && m@ == e),
    }
}

fn apply_head(config: &mut Config, file: &FileConfig)
    ensures
        *final(config) == settings_head(*old(config), *file),
{
    reveal(settings_head);
    keep_or_take(&mut config.monitor_selector, &file.monitor);
    keep_or_take(&mut config.player, &file.player);
    if let Some(size) = file.size {
        config.width = size;
        config.height = size;
    }
    if let Some(width) = file.width {
        config.width = width;
    }
    if let Some(height) = file.height {
        config.height = height;
    }
}

fn apply_fit(config: &mut Config, file: &FileConfig) -> (r: Result<(), String>)
    ensures
        stepped(*old(config), *final(config), r, fit_step(*old(config), *file)),
{
    reveal(fit_step);
    if let Some(artwork_fit) = &file.artwork_fit {
        config.artwork_fit = ArtworkFit::parse(artwork_fit.as_str())?;
    }
    Ok(())
}

fn apply_placement(config: &mut Config, file: &FileConfig) -> (r: Result<(), String>)
    ensures
        stepped(*old(config), *final(config), r, placement_step(*old(config), *file)),
{
    reveal(placement_step);
    if let Some(placement) = &file.placement {
        config.placement = Placement::parse(placement.as_str())?;
    }
    Ok(())
}

fn apply_middle(config: &mut Config, file: &FileConfig)
    ensures
        *final(config) == settings_middle(*old(config), *file),
{
    reveal(settings_middle);
    if let Some(offset_x) = file.offset_x {
        config.offset_x = offset_x;
    }
    if let Some(offset_y) = file.offset_y {
        config.offset_y = offset_y;
    }
    if let Some(margin) = file.margin {
        config.offset_x = margin;
        config.offset_y = margin;
    }
    if let Some(border_width) = file.border_width {
        config.border_width = border_width;
    }
    keep_or_take(&mut config.border_color, &file.border_color);
    if let Some(corner_radius) = file.corner_radius {
        config.corner_radius = corner_radius;
    }
}

fn apply_opacity(config: &mut Config, file: &FileConfig) -> (r: Result<(), String>)
    ensures
        stepped(*old(config), *final(config), r, opacity_step(*old(config), *file)),
{
    reveal(opacity_step);
    if let Some(opacity) = &file.opacity {
        if !opacity.in_unit_range {
            return Err(
                crate::text::message_str(
                    "unsupported opacity value '",
                    opacity.text.as_str(),
                    "', expected a number between 0.0 and 1.0",
                ),
            );
        }
        config.opacity_bits = opacity.bits;
    }
    Ok(())
}

fn apply_transition(config: &mut Config, file: &FileConfig) -> (r: Result<(), String>)
    ensures
        stepped(*old(config), *final(config), r, transition_step(*old(config), *file)),
{
    reveal(transition_step);
    if let Some(transition) = &file.transition {
        config.transition = Transition::parse(transition.as_str())?;
    }
    Ok(())
}

#[verifier::rlimit(40)]
fn apply_tail(config: &mut Config, file: &FileConfig)
    ensures
        *final(config) == settings_tail(*old(config), *file),
{
    reveal(settings_tail);
    if let Some(transition_ms) = file.transition_ms {
        config.transition_ms = transition_ms;
    }
    if let Some(poll_seconds) = file.poll_seconds {
        config.poll_seconds = poll_seconds;
    }
    if let Some(show_paused) = file.show_paused {
        config.show_paused = show_paused;
    }
    if let Some(no_cache) = file.no_cache {
        config.cache_enabled = !no_cache;
    }
    if let Some(cache_max_files) = file.cache_max_files {
        config.cache_max_files = cache_max_files;
    }
    if let Some(cache_max_mb) = file.cache_max_mb {
        config.cache_max_bytes = saturating_mul(cache_max_mb, 1024 * 1024);
    }
}

fn apply_layer(config: &mut Config, file: &FileConfig) -> (r: Result<(), String>)
    ensures
        stepped(*old(config), *final(config), r, layer_step(*old(config), *file)),
{
    reveal(layer_step);
    if let Some(layer) = &file.layer {
        config.layer = ShellLayer::parse(layer.as_str())?;
    }
    Ok(())
}

fn apply_settings(config: &mut Config, file: &FileConfig) -> (r: Result<(), String>)
    ensures
        *final(config) == settings_override(*old(config), *file).0,
        same_outcome(r, settings_override(*old(config), *file).1),
{
    apply_head(config, file);
    apply_fit(config, file)?;
    apply_placement(config, file)?;
    apply_middle(config, file);
    apply_opacity(config, file)?;
    apply_transition(config, file)?;
    apply_tail(config, file);
    apply_layer(config, file)?;
    Ok(())
}

fn apply_metadata_head(config: &mut Config, metadata: &FileMetadata)
    ensures
        *final(config) == metadata_head(*old(config), *metadata),
{
    reveal(metadata_head);
    if let Some(enabled) = metadata.enabled {
        config.metadata.enabled = enabled;
    }
    if let Some(style) = &metadata.style {
        apply_style_override(&mut config.metadata.top.style, style);
        apply_style_override(&mut config.metadata.left.style, style);
    }
}

fn apply_top_animation(config: &mut Config, animation: &FileAnimation) -> (r: Result<(), String>)
    ensures
        *final(config) == top_animation_step(*old(config), *animation).0,
        same_outcome(r, top_animation_step(*old(config), *animation).1),
{
    reveal(top_animation_step);
    apply_animation_override(&mut config.metadata.top.animation, animation)
}

fn apply_left_animation(config: &mut Config, animation: &FileAnimation) -> (r: Result<(), String>)
    ensures
        *final(config) == left_animation_step(*old(config), *animation).0,
        same_outcome(r, left_animation_step(*old(config), *animation).1),
{
    reveal(left_animation_step);
    apply_animation_override(&mut config.metadata.left.animation, animation)
}

fn apply_top_section(config: &mut Config, section: &FileMetadataSection) -> (r: Result<(), String>)
    ensures
        *final(config) == top_section_step(*old(config), *section).0,
        same_outcome(r, top_section_step(*old(config), *section).1),
{
    reveal(top_section_step);
    apply_section_override(&mut config.metadata.top, section)
}

fn apply_left_section(config: &mut Config, section: &FileMetadataSection) -> (r: Result<(), String>)
    ensures
        *final(config) == left_section_step(*old(config), *section).0,
        same_outcome(r, left_section_step(*old(config), *section).1),
{
    reveal(left_section_step);
    apply_section_override(&mut config.metadata.left, section)
}

fn apply_metadata(config: &mut Config, metadata: &FileMetadata) -> (r: Result<(), String>)
    ensures
        *final(config) == metadata_override(*old(config), *metadata).0,
        same_outcome(r, metadata_override(*old(config), *metadata).1),
{
    apply_metadata_head(config, metadata);
    if let Some(animation) = &metadata.animation {
        apply_top_animation(config, animation)?;
        apply_left_animation(config, animation)?;
    }
    if let Some(top) = &metadata.top {
        apply_top_section(config, top)?;
    }
    if let Some(left) = &metadata.left {
        apply_left_section(config, left)?;
    }
    Ok(())
}

fn apply_lyrics_table(config: &mut Config, lyrics: &FileLyrics) -> (r: Result<(), String>)
    ensures
        *final(config) == lyrics_table_override(*old(config), *lyrics).0,
        same_outcome(r, lyrics_table_override(*old(config), *lyrics).1),
{
    reveal(lyrics_table_override);
    apply_lyrics_override(&mut config.lyrics, lyrics)?;
    if let Some(enabled) = lyrics.enabled {
        config.lyrics.enabled = enabled;
    }
    Ok(())
}

/// What checking one template gives: the template text after it, and the
/// warning, if any.
pub open spec fn template_check(enabled: bool, template: Seq<char>, default: Seq<char>, section: Seq<char>) -> (
    Seq<char>,
    Seq<Seq<char>>,
) {
    if enabled {
        match compiled(template) {
            Err(e) => (
                default,
                seq![
                    "covermint: invalid metadata."@ + section + " template ("@ + e
                        + "); using default '{"@ + section_field(section) + "}'"@,
                ],
            ),
            Ok(_) => (template, seq![]),
        }
    } else {
        (template, seq![])
    }
}

/// The field a section's default template shows.
pub open spec fn section_field(section: Seq<char>) -> Seq<char> {
    if section == "top"@ {
        "artist"@
    } else {
        "title"@
    }
}

/// The configuration after the template check: only the two templates may
/// differ from `before`, as `template_check` says.
pub open spec fn fallen_back(before: Config, after: Config) -> bool {
    &&& after == with_left(
        with_top(before, MetadataSectionConfig { template: after.metadata.top.template, ..before.metadata.top }),
        MetadataSectionConfig { template: after.metadata.left.template, ..before.metadata.left },
    )
    &&& after.metadata.top.template@ == template_check(
        before.metadata.top.enabled,
        before.metadata.top.template@,
        "{{artist}}"@,
        "top"@,
    ).0
    &&& after.metadata.left.template@ == template_check(
        before.metadata.left.enabled,
        before.metadata.left.template@,
        "{{title}}"@,
        "left"@,
    ).0
}

/// The warnings that the template check gives.
pub open spec fn fallback_warnings(c: Config) -> Seq<Seq<char>> {
    template_check(c.metadata.top.enabled, c.metadata.top.template@, "{{artist}}"@, "top"@).1
        + template_check(c.metadata.left.enabled, c.metadata.left.template@, "{{title}}"@, "left"@).1
}

pub open spec fn texts_of(v: Seq<String>) -> Seq<Seq<char>> {
    v.map_values(|w: String| w@)
}

/// Checks one template; when it does not compile, it is replaced by
/// `default` and the warning is returned.
fn check_template(enabled: bool, template: &mut String, default: &str, section: &str, field: &str) -> (w: Option<String>)
    requires
        field@ == section_field(section@),
    ensures
        final(template)@ == template_check(enabled, old(template)@, default@, section@).0,
        match w {
            Some(m) => template_check(enabled, old(template)@, default@, section@).1 == seq![m@],
            None => template_check(enabled, old(template)@, default@, section@).1 == Seq::<Seq<char>>::empty(),
        },
{
    if enabled {
        match validate_template(template.as_str()) {
            Err(error) => {
                let mut w = crate::text::message_str("covermint: invalid metadata.", section, " template (");
                crate::text::push_str(&mut w, error.as_str());
                crate::text::push_str(&mut w, "); using default '{");
                crate::text::push_str(&mut w, field);
                crate::text::push_str(&mut w, "}'");
                *template = default.to_owned();
                return Some(w);
            },
            Ok(()) => {},
        }
    }
    None
}

/// Replaces the template of an enabled section that does not compile with
/// the default one, and says so.
pub fn fall_back_to_default_templates(config: &mut Config) -> (warnings: Vec<String>)
    ensures
        fallen_back(*old(config), *final(config)),
        texts_of(warnings@) == fallback_warnings(*old(config)),
{
    let mut warnings: Vec<String> = Vec::new();
    proof {
        reveal_strlit("top");
        reveal_strlit("left");
        assert("top"@.len() != "left"@.len());
    }
    let enabled = config.metadata.top.enabled;
    if let Some(w) = check_template(enabled, &mut config.metadata.top.template, "{{artist}}", "top", "artist") {
        warnings.push(w);
    }
    let enabled = config.metadata.left.enabled;
    if let Some(w) = check_template(enabled, &mut config.metadata.left.template, "{{title}}", "left", "title") {
        warnings.push(w);
    }
    assert(texts_of(warnings@) =~= fallback_warnings(*old(config)));
    warnings
}

/// Lays the settings of `config.toml` over `config`. When a value does not
/// read, its message is the error and the settings before it stay laid
/// over. Otherwise the templates are checked, an enabled section whose
/// template does not compile falls back to the default one, and the
/// warnings saying so are returned.
pub fn apply_file_config(config: &mut Config, file: &FileConfig) -> (r: Result<Vec<String>, String>)
    ensures
        match file_override(*old(config), *file) {
            (c, Err(e)) => *final(config) == c && (r matches Err(m) && m@ == e),
            (c, Ok(_)) => fallen_back(c, *final(config)) && (r matches Ok(w) && texts_of(w@)
                == fallback_warnings(c)),
        },
{
    apply_settings(config, file)?;
    if let Some(metadata) = &file.metadata {
        apply_metadata(config, metadata)?;
    }
    if let Some(lyrics) = &file.lyrics {
        apply_lyrics_table(config, lyrics)?;
    }
    Ok(fall_back_to_default_templates(config))
}

/// After the template check, the template of every enabled section
/// compiles: a malformed one has been replaced by its default.
pub proof fn law_enabled_templates_compile_after_fallback(before: Config, after: Config)
    requires
        fallen_back(before, after),
    ensures
        after.metadata.top.enabled ==> compiled(after.metadata.top.template@) is Ok,
        after.metadata.left.enabled ==> compiled(after.metadata.left.template@) is Ok,
{
    crate::metadata::template::lemma_default_templates_compile();
}

/// `b` has the top-level settings of `a`: all but the metadata and the
/// lyrics tables.
pub open spec fn same_top_level(a: Config, b: Config) -> bool {
    &&& a.monitor_selector == b.monitor_selector
    &&& a.player == b.player
    &&& a.width == b.width
    &&& a.height == b.height
    &&& a.artwork_fit == b.artwork_fit
    &&& a.placement == b.placement
    &&& a.offset_x == b.offset_x
    &&& a.offset_y == b.offset_y
    &&& a.border_width == b.border_width
    &&& a.border_color == b.border_color
    &&& a.corner_radius == b.corner_radius
    &&& a.opacity_bits == b.opacity_bits
    &&& a.transition == b.transition
    &&& a.transition_ms == b.transition_ms
    &&& a.poll_seconds == b.poll_seconds
    &&& a.show_paused == b.show_paused
    &&& a.cache_enabled == b.cache_enabled
    &&& a.cache_max_files == b.cache_max_files
    &&& a.cache_max_bytes == b.cache_max_bytes
    &&& a.layer == b.layer
}

proof fn lemma_metadata_head_keeps_top_level(c: Config, m: FileMetadata)
    ensures
        same_top_level(c, metadata_head(c, m)),
{
    reveal(metadata_head);
}

proof fn lemma_top_animation_step_keeps_top_level(c: Config, a: FileAnimation)
    ensures
        same_top_level(c, top_animation_step(c, a).0),
{
    reveal(top_animation_step);
}

proof fn lemma_left_animation_step_keeps_top_level(c: Config, a: FileAnimation)
    ensures
        same_top_level(c, left_animation_step(c, a).0),
{
    reveal(left_animation_step);
}

proof fn lemma_top_section_step_keeps_top_level(c: Config, t: FileMetadataSection)
    ensures
        same_top_level(c, top_section_step(c, t).0),
{
    reveal(top_section_step);
}

proof fn lemma_left_section_step_keeps_top_level(c: Config, t: FileMetadataSection)
    ensures
        same_top_level(c, left_section_step(c, t).0),
{
    reveal(left_section_step);
}

proof fn lemma_lyrics_table_override_keeps_top_level(c: Config, l: FileLyrics)
    ensures
        same_top_level(c, lyrics_table_override(c, l).0),
{
    reveal(lyrics_table_override);
}

proof fn lemma_metadata_keeps_top_level(c: Config, m: FileMetadata)
    ensures
        same_top_level(c, metadata_override(c, m).0),
{
    let c1 = metadata_head(c, m);
    lemma_metadata_head_keeps_top_level(c, m);
    let c3 = match m.animation {
        Some(a) => {
            lemma_top_animation_step_keeps_top_level(c1, a);
            let c2 = top_animation_step(c1, a).0;
            lemma_left_animation_step_keeps_top_level(c2, a);
            left_animation_step(c2, a).0
        },
        None => c1,
    };
    assert(same_top_level(c, c3));
    match m.top {
        Some(t) => {
            lemma_top_section_step_keeps_top_level(c3, t);
            let c4 = top_section_step(c3, t).0;
            match m.left {
                Some(l) => lemma_left_section_step_keeps_top_level(c4, l),
                None => {},
            }
        },
        None => match m.left {
            Some(l) => lemma_left_section_step_keeps_top_level(c3, l),
            None => {},
        },
    }
}

proof fn lemma_settings_head_fields(c: Config, f: FileConfig)
    ensures
        ({
            let r = settings_head(c, f);
            &&& r.monitor_selector == or_keep(f.monitor, c.monitor_selector)
            &&& r.player == or_keep(f.player, c.player)
            &&& r.width == match f.width {
                Some(w) => w,
                None => match f.size {
                    Some(n) => n,
                    None => c.width,
                },
            }
            &&& r.height == match f.height {
                Some(h) => h,
                None => match f.size {
                    Some(n) => n,
                    None => c.height,
                },
            }
            &&& r.artwork_fit == c.artwork_fit
            &&& r.placement == c.placement
            &&& r.offset_x == c.offset_x
            &&& r.offset_y == c.offset_y
            &&& r.border_width == c.border_width
            &&& r.border_color == c.border_color
            &&& r.corner_radius == c.corner_radius
            &&& r.opacity_bits == c.opacity_bits
            &&& r.transition == c.transition
            &&& r.transition_ms == c.transition_ms
            &&& r.poll_seconds == c.poll_seconds
            &&& r.show_paused == c.show_paused
            &&& r.cache_enabled == c.cache_enabled
            &&& r.cache_max_files == c.cache_max_files
            &&& r.cache_max_bytes == c.cache_max_bytes
            &&& r.layer == c.layer
        }),
{
    reveal(settings_head);
}

proof fn lemma_fit_step_fields(c: Config, f: FileConfig)
    requires
        fit_step(c, f) is Ok,
    ensures
        ({
            let r = fit_step(c, f)->Ok_0;
            &&& f.artwork_fit matches Some(v) ==> artwork_fit_parsed(v@) == Ok::<ArtworkFit, Seq<char>>(r.artwork_fit)
            &&& f.artwork_fit is None ==> r.artwork_fit == c.artwork_fit
            &&& r.monitor_selector == c.monitor_selector
            &&& r.player == c.player
            &&& r.width == c.width
            &&& r.height == c.height
            &&& r.placement == c.placement
            &&& r.offset_x == c.offset_x
            &&& r.offset_y == c.offset_y
            &&& r.border_width == c.border_width
            &&& r.border_color == c.border_color
            &&& r.corner_radius == c.corner_radius
            &&& r.opacity_bits == c.opacity_bits
            &&& r.transition == c.transition
            &&& r.transition_ms == c.transition_ms
            &&& r.poll_seconds == c.poll_seconds
            &&& r.show_paused == c.show_paused
            &&& r.cache_enabled == c.cache_enabled
            &&& r.cache_max_files == c.cache_max_files
            &&& r.cache_max_bytes == c.cache_max_bytes
            &&& r.layer == c.layer
        }),
{
    reveal(fit_step);
}

proof fn lemma_placement_step_fields(c: Config, f: FileConfig)
    requires
        placement_step(c, f) is Ok,
    ensures
        ({
            let r = placement_step(c, f)->Ok_0;
            &&& f.placement matches Some(v) ==> placement_parsed(v@) == Ok::<Placement, Seq<char>>(r.placement)
            &&& f.placement is None ==> r.placement == c.placement
            &&& r.monitor_selector == c.monitor_selector
            &&& r.player == c.player
            &&& r.width == c.width
            &&& r.height == c.height
            &&& r.artwork_fit == c.artwork_fit
            &&& r.offset_x == c.offset_x
            &&& r.offset_y == c.offset_y
            &&& r.border_width == c.border_width
            &&& r.border_color == c.border_color
            &&& r.corner_radius == c.corner_radius
            &&& r.opacity_bits == c.opacity_bits
            &&& r.transition == c.transition
            &&& r.transition_ms == c.transition_ms
            &&& r.poll_seconds == c.poll_seconds
            &&& r.show_paused == c.show_paused
            &&& r.cache_enabled == c.cache_enabled
            &&& r.cache_max_files == c.cache_max_files
            &&& r.cache_max_bytes == c.cache_max_bytes
            &&& r.layer == c.layer
        }),
{
    reveal(placement_step);
}

proof fn lemma_settings_middle_fields(c: Config, f: FileConfig)
    ensures
        ({
            let r = settings_middle(c, f);
            &&& r.offset_x == match f.margin {
                Some(n) => n,
                None => or_keep(f.offset_x, c.offset_x),
            }
            &&& r.offset_y == match f.margin {
                Some(n) => n,
                None => or_keep(f.offset_y, c.offset_y),
            }
            &&& r.border_width == or_keep(f.border_width, c.border_width)
            &&& r.border_color == or_keep(f.border_color, c.border_color)
            &&& r.corner_radius == or_keep(f.corner_radius, c.corner_radius)
            &&& r.monitor_selector == c.monitor_selector
            &&& r.player == c.player
            &&& r.width == c.width
            &&& r.height == c.height
            &&& r.artwork_fit == c.artwork_fit
            &&& r.placement == c.placement
            &&& r.opacity_bits == c.opacity_bits
            &&& r.transition == c.transition
            &&& r.transition_ms == c.transition_ms
            &&& r.poll_seconds == c.poll_seconds
            &&& r.show_paused == c.show_paused
            &&& r.cache_enabled == c.cache_enabled
            &&& r.cache_max_files == c.cache_max_files
            &&& r.cache_max_bytes == c.cache_max_bytes
            &&& r.layer == c.layer
        }),
{
    reveal(settings_middle);
}

proof fn lemma_opacity_step_fields(c: Config, f: FileConfig)
    requires
        opacity_step(c, f) is Ok,
    ensures
        ({
            let r = opacity_step(c, f)->Ok_0;
            &&& f.opacity matches Some(o) ==> o.in_unit_range && r.opacity_bits == o.bits
            &&& f.opacity is None ==> r.opacity_bits == c.opacity_bits
            &&& r.monitor_selector == c.monitor_selector
            &&& r.player == c.player
            &&& r.width == c.width
            &&& r.height == c.height
            &&& r.artwork_fit == c.artwork_fit
            &&& r.placement == c.placement
            &&& r.offset_x == c.offset_x
            &&& r.offset_y == c.offset_y
            &&& r.border_width == c.border_width
            &&& r.border_color == c.border_color
            &&& r.corner_radius == c.corner_radius
            &&& r.transition == c.transition
            &&& r.transition_ms == c.transition_ms
            &&& r.poll_seconds == c.poll_seconds
            &&& r.show_paused == c.show_paused
            &&& r.cache_enabled == c.cache_enabled
            &&& r.cache_max_files == c.cache_max_files
            &&& r.cache_max_bytes == c.cache_max_bytes
            &&& r.layer == c.layer
        }),
{
    reveal(opacity_step);
}

proof fn lemma_transition_step_fields(c: Config, f: FileConfig)
    requires
        transition_step(c, f) is Ok,
    ensures
        ({
            let r = transition_step(c, f)->Ok_0;
            &&& f.transition matches Some(v) ==> transition_parsed(v@) == Ok::<Transition, Seq<char>>(r.transition)
            &&& f.transition is None ==> r.transition == c.transition
            &&& r.monitor_selector == c.monitor_selector
            &&& r.player == c.player
            &&& r.width == c.width
            &&& r.height == c.height
            &&& r.artwork_fit == c.artwork_fit
            &&& r.placement == c.placement
            &&& r.offset_x == c.offset_x
            &&& r.offset_y == c.offset_y
            &&& r.border_width == c.border_width
            &&& r.border_color == c.border_color
            &&& r.corner_radius == c.corner_radius
            &&& r.opacity_bits == c.opacity_bits
            &&& r.transition_ms == c.transition_ms
            &&& r.poll_seconds == c.poll_seconds
            &&& r.show_paused == c.show_paused
            &&& r.cache_enabled == c.cache_enabled
            &&& r.cache_max_files == c.cache_max_files
            &&& r.cache_max_bytes == c.cache_max_bytes
            &&& r.layer == c.layer
        }),
{
    reveal(transition_step);
}

proof fn lemma_settings_tail_fields(c: Config, f: FileConfig)
    ensures
        ({
            let r = settings_tail(c, f);
            &&& r.transition_ms == or_keep(f.transition_ms, c.transition_ms)
            &&& r.poll_seconds == or_keep(f.poll_seconds, c.poll_seconds)
            &&& r.show_paused == or_keep(f.show_paused, c.show_paused)
            &&& r.cache_enabled == match f.no_cache {
                Some(b) => !b,
                None => c.cache_enabled,
            }
            &&& r.cache_max_files == or_keep(f.cache_max_files, c.cache_max_files)
            &&& r.cache_max_bytes == match f.cache_max_mb {
                Some(mb) => if mb * 1048576 <= u64::MAX {
                    (mb * 1048576) as u64
                } else {
                    u64::MAX
                },
                None => c.cache_max_bytes,
            }
            &&& r.monitor_selector == c.monitor_selector
            &&& r.player == c.player
            &&& r.width == c.width
            &&& r.height == c.height
            &&& r.artwork_fit == c.artwork_fit
            &&& r.placement == c.placement
            &&& r.offset_x == c.offset_x
            &&& r.offset_y == c.offset_y
            &&& r.border_width == c.border_width
            &&& r.border_color == c.border_color
            &&& r.corner_radius == c.corner_radius
            &&& r.opacity_bits == c.opacity_bits
            &&& r.transition == c.transition
            &&& r.layer == c.layer
        }),
{
    reveal(settings_tail);
}

proof fn lemma_layer_step_fields(c: Config, f: FileConfig)
    requires
        layer_step(c, f) is Ok,
    ensures
        ({
            let r = layer_step(c, f)->Ok_0;
            &&& f.layer matches Some(v) ==> shell_layer_parsed(v@) == Ok::<ShellLayer, Seq<char>>(r.layer)
            &&& f.layer is None ==> r.layer == c.layer
            &&& r.monitor_selector == c.monitor_selector
            &&& r.player == c.player
            &&& r.width == c.width
            &&& r.height == c.height
            &&& r.artwork_fit == c.artwork_fit
            &&& r.placement == c.placement
            &&& r.offset_x == c.offset_x
            &&& r.offset_y == c.offset_y
            &&& r.border_width == c.border_width
            &&& r.border_color == c.border_color
            &&& r.corner_radius == c.corner_radius
            &&& r.opacity_bits == c.opacity_bits
            &&& r.transition == c.transition
            &&& r.transition_ms == c.transition_ms
            &&& r.poll_seconds == c.poll_seconds
            &&& r.show_paused == c.show_paused
            &&& r.cache_enabled == c.cache_enabled
            &&& r.cache_max_files == c.cache_max_files
            &&& r.cache_max_bytes == c.cache_max_bytes
        }),
{
    reveal(layer_step);
}

proof fn lemma_settings_take_the_files_values(c: Config, f: FileConfig)
    requires
        settings_override(c, f).1 is Ok,
    ensures
        settings_override(c, f).0.monitor_selector == or_keep(f.monitor, c.monitor_selector),
        f.monitor matches Some(v) ==> settings_override(c, f).0.monitor_selector == v,
        f.player matches Some(v) ==> settings_override(c, f).0.player == v,
        f.player is None ==> settings_override(c, f).0.player == c.player,
        f.width matches Some(w) ==> settings_override(c, f).0.width == w,
        f.height matches Some(h) ==> settings_override(c, f).0.height == h,
        f.width is None ==> settings_override(c, f).0.width == match f.size {
            Some(n) => n,
            None => c.width,
        },
        f.height is None ==> settings_override(c, f).0.height == match f.size {
            Some(n) => n,
            None => c.height,
        },
        f.artwork_fit matches Some(v) ==> artwork_fit_parsed(v@) == Ok::<ArtworkFit, Seq<char>>(
            settings_override(c, f).0.artwork_fit,
        ),
        f.artwork_fit is None ==> settings_override(c, f).0.artwork_fit == c.artwork_fit,
        f.placement matches Some(v) ==> placement_parsed(v@) == Ok::<Placement, Seq<char>>(
            settings_override(c, f).0.placement,
        ),
        f.placement is None ==> settings_override(c, f).0.placement == c.placement,
        f.margin matches Some(n) ==> settings_override(c, f).0.offset_x == n && settings_override(c, f).0.offset_y == n,
        f.margin is None ==> settings_override(c, f).0.offset_x == match f.offset_x {
            Some(x) => x,
            None => c.offset_x,
        } && settings_override(c, f).0.offset_y == match f.offset_y {
            Some(y) => y,
            None => c.offset_y,
        },
        f.border_width matches Some(n) ==> settings_override(c, f).0.border_width == n,
        f.border_width is None ==> settings_override(c, f).0.border_width == c.border_width,
        f.border_color matches Some(v) ==> settings_override(c, f).0.border_color == v,
        f.border_color is None ==> settings_override(c, f).0.border_color == c.border_color,
        f.corner_radius matches Some(n) ==> settings_override(c, f).0.corner_radius == n,
        f.corner_radius is None ==> settings_override(c, f).0.corner_radius == c.corner_radius,
        f.opacity matches Some(o) ==> o.in_unit_range && settings_override(c, f).0.opacity_bits == o.bits,
        f.opacity is None ==> settings_override(c, f).0.opacity_bits == c.opacity_bits,
        f.transition matches Some(v) ==> transition_parsed(v@) == Ok::<Transition, Seq<char>>(
            settings_override(c, f).0.transition,
        ),
        f.transition is None ==> settings_override(c, f).0.transition == c.transition,
        f.transition_ms matches Some(n) ==> settings_override(c, f).0.transition_ms == n,
        f.transition_ms is None ==> settings_override(c, f).0.transition_ms == c.transition_ms,
        f.poll_seconds matches Some(n) ==> settings_override(c, f).0.poll_seconds == n,
        f.poll_seconds is None ==> settings_override(c, f).0.poll_seconds == c.poll_seconds,
        f.show_paused matches Some(b) ==> settings_override(c, f).0.show_paused == b,
        f.show_paused is None ==> settings_override(c, f).0.show_paused == c.show_paused,
        f.no_cache matches Some(b) ==> settings_override(c, f).0.cache_enabled == !b,
        f.no_cache is None ==> settings_override(c, f).0.cache_enabled == c.cache_enabled,
        f.cache_max_files matches Some(n) ==> settings_override(c, f).0.cache_max_files == n,
        f.cache_max_files is None ==> settings_override(c, f).0.cache_max_files == c.cache_max_files,
        f.cache_max_mb matches Some(mb) ==> settings_override(c, f).0.cache_max_bytes == if mb * 1048576 <= u64::MAX {
            (mb * 1048576) as u64
        } else {
            u64::MAX
        },
        f.cache_max_mb is None ==> settings_override(c, f).0.cache_max_bytes == c.cache_max_bytes,
        f.layer matches Some(v) ==> shell_layer_parsed(v@) == Ok::<ShellLayer, Seq<char>>(settings_override(c, f).0.layer),
        f.layer is None ==> settings_override(c, f).0.layer == c.layer,
{
    let c1 = settings_head(c, f);
    lemma_settings_head_fields(c, f);
    lemma_fit_step_fields(c1, f);
    let c2 = fit_step(c1, f)->Ok_0;
    lemma_placement_step_fields(c2, f);
    let c3 = placement_step(c2, f)->Ok_0;
    let c4 = settings_middle(c3, f);
    lemma_settings_middle_fields(c3, f);
    lemma_opacity_step_fields(c4, f);
    let c5 = opacity_step(c4, f)->Ok_0;
    lemma_transition_step_fields(c5, f);
    let c6 = transition_step(c5, f)->Ok_0;
    let c7 = settings_tail(c6, f);
    lemma_settings_tail_fields(c6, f);
    lemma_layer_step_fields(c7, f);
}

/// Every top-level setting that a file which reads gives takes the file's
/// value, and every one it leaves out keeps the value in force: the
/// monitor, the player, the width and height (`width` and `height` over
/// `size`), the offsets (`margin` over both), the border, the corner
/// radius, the opacity, the timings, `show_paused`, the cache (`no_cache`
/// turns it off, `cache_max_mb` is counted in MiB, at most `u64::MAX`
/// bytes) and the layer; a named value (fit, placement, transition,
/// layer) is the one its text reads as.
pub proof fn law_file_settings_take_the_files_values(c: Config, f: FileConfig, after: Config)
    requires
        file_override(c, f).1 is Ok,
        fallen_back(file_override(c, f).0, after),
    ensures
        after.monitor_selector == or_keep(f.monitor, c.monitor_selector),
        f.monitor matches Some(v) ==> after.monitor_selector == v,
        f.player matches Some(v) ==> after.player == v,
        f.player is None ==> after.player == c.player,
        f.width matches Some(w) ==> after.width == w,
        f.height matches Some(h) ==> after.height == h,
        f.width is None ==> after.width == match f.size {
            Some(n) => n,
            None => c.width,
        },
        f.height is None ==> after.height == match f.size {
            Some(n) => n,
            None => c.height,
        },
        f.artwork_fit matches Some(v) ==> artwork_fit_parsed(v@) == Ok::<ArtworkFit, Seq<char>>(
            after.artwork_fit,
        ),
        f.artwork_fit is None ==> after.artwork_fit == c.artwork_fit,
        f.placement matches Some(v) ==> placement_parsed(v@) == Ok::<Placement, Seq<char>>(
            after.placement,
        ),
        f.placement is None ==> after.placement == c.placement,
        f.margin matches Some(n) ==> after.offset_x == n && after.offset_y == n,
        f.margin is None ==> after.offset_x == match f.offset_x {
            Some(x) => x,
            None => c.offset_x,
        } && after.offset_y == match f.offset_y {
            Some(y) => y,
            None => c.offset_y,
        },
        f.border_width matches Some(n) ==> after.border_width == n,
        f.border_width is None ==> after.border_width == c.border_width,
        f.border_color matches Some(v) ==> after.border_color == v,
        f.border_color is None ==> after.border_color == c.border_color,
        f.corner_radius matches Some(n) ==> after.corner_radius == n,
        f.corner_radius is None ==> after.corner_radius == c.corner_radius,
        f.opacity matches Some(o) ==> o.in_unit_range && after.opacity_bits == o.bits,
        f.opacity is None ==> after.opacity_bits == c.opacity_bits,
        f.transition matches Some(v) ==> transition_parsed(v@) == Ok::<Transition, Seq<char>>(
            after.transition,
        ),
        f.transition is None ==> after.transition == c.transition,
        f.transition_ms matches Some(n) ==> after.transition_ms == n,
        f.transition_ms is None ==> after.transition_ms == c.transition_ms,
        f.poll_seconds matches Some(n) ==> after.poll_seconds == n,
        f.poll_seconds is None ==> after.poll_seconds == c.poll_seconds,
        f.show_paused matches Some(b) ==> after.show_paused == b,
        f.show_paused is None ==> after.show_paused == c.show_paused,
        f.no_cache matches Some(b) ==> after.cache_enabled == !b,
        f.no_cache is None ==> after.cache_enabled == c.cache_enabled,
        f.cache_max_files matches Some(n) ==> after.cache_max_files == n,
        f.cache_max_files is None ==> after.cache_max_files == c.cache_max_files,
        f.cache_max_mb matches Some(mb) ==> after.cache_max_bytes == if mb * 1048576 <= u64::MAX {
            (mb * 1048576) as u64
        } else {
            u64::MAX
        },
        f.cache_max_mb is None ==> after.cache_max_bytes == c.cache_max_bytes,
        f.layer matches Some(v) ==> shell_layer_parsed(v@) == Ok::<ShellLayer, Seq<char>>(after.layer),
        f.layer is None ==> after.layer == c.layer,
{
    let (c1, r1) = settings_override(c, f);
    assert(r1 is Ok);
    lemma_settings_take_the_files_values(c, f);
    let c2 = match f.metadata {
        Some(m) => {
            lemma_metadata_keeps_top_level(c1, m);
            metadata_override(c1, m).0
        },
        None => c1,
    };
    match f.lyrics {
        Some(l) => lemma_lyrics_table_override_keeps_top_level(c2, l),
        None => {},
    }
    assert(same_top_level(c1, file_override(c, f).0));
    assert(same_top_level(c1, after));
}

/// `after` is `before` with each style setting of the file taken, the
/// font size raised to at least 1, the weight to 100 and the padding to 0,
/// and each setting the file leaves out kept.
pub open spec fn style_taken(before: MetadataStyleConfig, src: FileMetadataStyle, after: MetadataStyleConfig) -> bool {
    &&& src.font_family matches Some(v) ==> after.font_family == v
    &&& src.font_family is None ==> after.font_family == before.font_family
    &&& src.font_size_px matches Some(n) ==> after.font_size_px == if n < 1 {
                1
            } else {
                n
            }
    &&& src.font_size_px is None ==> after.font_size_px == before.font_size_px
    &&& src.font_weight matches Some(n) ==> after.font_weight == if n < 100 {
                100
            } else {
                n
            }
    &&& src.font_weight is None ==> after.font_weight == before.font_weight
    &&& src.text_color matches Some(v) ==> after.text_color == v
    &&& src.text_color is None ==> after.text_color == before.text_color
    &&& src.background_color matches Some(v) ==> after.background_color == v
    &&& src.background_color is None ==> after.background_color == before.background_color
    &&& src.padding_px matches Some(n) ==> after.padding_px == if n < 0 {
                0
            } else {
                n
            }
    &&& src.padding_px is None ==> after.padding_px == before.padding_px
}

/// `after` is `before` with the file's animation mode, direction and
/// duration taken where given, each read from its name.
pub open spec fn animation_taken(before: TextAnimationConfig, src: FileAnimation, after: TextAnimationConfig) -> bool {
    &&& src.mode matches Some(v) ==> animation_mode_parsed(v@) == Ok::<TextAnimationMode, Seq<char>>(after.mode)
    &&& src.mode is None ==> after.mode == before.mode
    &&& src.direction matches Some(v) ==> reveal_direction_parsed(v@) == Ok::<RevealDirection, Seq<char>>(after.direction)
    &&& src.direction is None ==> after.direction == before.direction
    &&& src.duration_ms matches Some(v) ==> after.duration_ms == v
    &&& src.duration_ms is None ==> after.duration_ms == before.duration_ms
}

/// A section table that reads gives its section every setting it holds
/// and leaves the others as they were; sizes below their least sensible
/// value are raised to it.
pub proof fn law_section_settings_take_the_files_values(s: MetadataSectionConfig, src: FileMetadataSection)
    requires
        section_override(s, src).1 is Ok,
    ensures
        ({
            let r = section_override(s, src).0;
            &&& src.enabled matches Some(v) ==> r.enabled == v
            &&& src.enabled is None ==> r.enabled == s.enabled
            &&& src.template matches Some(v) ==> r.template == v
            &&& src.template is None ==> r.template == s.template
            &&& src.align matches Some(v) ==> section_align_parsed(v@) == Ok::<SectionAlign, Seq<char>>(r.align)
            &&& src.align is None ==> r.align == s.align
            &&& src.truncate matches Some(v) ==> truncate_mode_parsed(v@) == Ok::<TruncateMode, Seq<char>>(r.truncate)
            &&& src.truncate is None ==> r.truncate == s.truncate
            &&& src.band_size_px matches Some(n) ==> r.band_size_px == if n < 0 {
                        0
                    } else {
                        n
                    }
            &&& src.band_size_px is None ==> r.band_size_px == s.band_size_px
            &&& src.style matches Some(st) ==> style_taken(s.style, st, r.style)
            &&& src.style is None ==> r.style == s.style
            &&& src.animation matches Some(a) ==> animation_taken(s.animation, a, r.animation)
            &&& src.animation is None ==> r.animation == s.animation
        }),
{
}

/// A `[lyrics]` table that reads gives the lyrics every setting it holds
/// and leaves the others, the metadata and the top-level settings as they
/// were; sizes below their least sensible value are raised to it.
pub proof fn law_lyrics_settings_take_the_files_values(c: Config, l: FileLyrics)
    requires
        lyrics_table_override(c, l).1 is Ok,
    ensures
        ({
            let after = lyrics_table_override(c, l).0;
            let r = after.lyrics;
            &&& l.enabled matches Some(v) ==> r.enabled == v
            &&& l.enabled is None ==> r.enabled == c.lyrics.enabled
            &&& l.layout matches Some(v) ==> lyrics_layout_parsed(v@) == Ok::<LyricsLayout, Seq<char>>(r.layout)
            &&& l.layout is None ==> r.layout == c.lyrics.layout
            &&& l.lines_visible matches Some(n) ==> r.lines_visible == if n < 1 {
                        1
                    } else {
                        n
                    }
            &&& l.lines_visible is None ==> r.lines_visible == c.lyrics.lines_visible
            &&& l.panel_width matches Some(n) ==> r.panel_width == if n < 120 {
                        120
                    } else {
                        n
                    }
            &&& l.panel_width is None ==> r.panel_width == c.lyrics.panel_width
            &&& l.smooth_scroll matches Some(v) ==> r.smooth_scroll == v
            &&& l.smooth_scroll is None ==> r.smooth_scroll == c.lyrics.smooth_scroll
            &&& l.font_family matches Some(v) ==> r.style.font_family == v
            &&& l.font_family is None ==> r.style.font_family == c.lyrics.style.font_family
            &&& l.font_size_px matches Some(n) ==> r.style.font_size_px == if n < 1 {
                        1
                    } else {
                        n
                    }
            &&& l.font_size_px is None ==> r.style.font_size_px == c.lyrics.style.font_size_px
            &&& l.text_color matches Some(v) ==> r.style.text_color == v
            &&& l.text_color is None ==> r.style.text_color == c.lyrics.style.text_color
            &&& l.active_line_color matches Some(v) ==> r.style.active_line_color == v
            &&& l.active_line_color is None ==> r.style.active_line_color == c.lyrics.style.active_line_color
            &&& l.background_color matches Some(v) ==> r.style.background_color == v
            &&& l.background_color is None ==> r.style.background_color == c.lyrics.style.background_color
            &&& l.padding_px matches Some(n) ==> r.style.padding_px == if n < 0 {
                        0
                    } else {
                        n
                    }
            &&& l.padding_px is None ==> r.style.padding_px == c.lyrics.style.padding_px
            &&& after.metadata == c.metadata
            &&& same_top_level(c, after)
        }),
{
    reveal(lyrics_table_override);
}

/// Two sections agree in all but their style and animation.
pub open spec fn same_section_settings(a: MetadataSectionConfig, b: MetadataSectionConfig) -> bool {
    &&& a.enabled == b.enabled
    &&& a.template == b.template
    &&& a.align == b.align
    &&& a.truncate == b.truncate
    &&& a.band_size_px == b.band_size_px
}

proof fn lemma_metadata_head_fields(c: Config, m: FileMetadata)
    ensures
        ({
            let r = metadata_head(c, m);
            &&& r.metadata.enabled == or_keep(m.enabled, c.metadata.enabled)
            &&& same_section_settings(c.metadata.top, r.metadata.top)
            &&& same_section_settings(c.metadata.left, r.metadata.left)
            &&& r.metadata.top.animation == c.metadata.top.animation
            &&& r.metadata.left.animation == c.metadata.left.animation
            &&& m.style matches Some(st) ==> style_taken(c.metadata.top.style, st, r.metadata.top.style)
                && style_taken(c.metadata.left.style, st, r.metadata.left.style)
            &&& m.style is None ==> r.metadata.top.style == c.metadata.top.style
                && r.metadata.left.style == c.metadata.left.style
            &&& r.lyrics == c.lyrics
            &&& same_top_level(c, r)
        }),
{
    reveal(metadata_head);
}

proof fn lemma_top_animation_step_fields(c: Config, a: FileAnimation)
    ensures
        ({
            let (r, res) = top_animation_step(c, a);
            &&& r.metadata.enabled == c.metadata.enabled
            &&& same_section_settings(c.metadata.top, r.metadata.top)
            &&& r.metadata.top.style == c.metadata.top.style
            &&& r.metadata.left == c.metadata.left
            &&& res is Ok ==> animation_taken(c.metadata.top.animation, a, r.metadata.top.animation)
            &&& r.lyrics == c.lyrics
            &&& same_top_level(c, r)
        }),
{
    reveal(top_animation_step);
}

proof fn lemma_left_animation_step_fields(c: Config, a: FileAnimation)
    ensures
        ({
            let (r, res) = left_animation_step(c, a);
            &&& r.metadata.enabled == c.metadata.enabled
            &&& same_section_settings(c.metadata.left, r.metadata.left)
            &&& r.metadata.left.style == c.metadata.left.style
            &&& r.metadata.top == c.metadata.top
            &&& res is Ok ==> animation_taken(c.metadata.left.animation, a, r.metadata.left.animation)
            &&& r.lyrics == c.lyrics
            &&& same_top_level(c, r)
        }),
{
    reveal(left_animation_step);
}

proof fn lemma_top_section_step_fields(c: Config, t: FileMetadataSection)
    ensures
        ({
            let (r, res) = top_section_step(c, t);
            &&& r.metadata.enabled == c.metadata.enabled
            &&& r.metadata.top == section_override(c.metadata.top, t).0
            &&& res == section_override(c.metadata.top, t).1
            &&& r.metadata.left == c.metadata.left
            &&& r.lyrics == c.lyrics
        }),
{
    reveal(top_section_step);
}

proof fn lemma_left_section_step_fields(c: Config, t: FileMetadataSection)
    ensures
        ({
            let (r, res) = left_section_step(c, t);
            &&& r.metadata.enabled == c.metadata.enabled
            &&& r.metadata.left == section_override(c.metadata.left, t).0
            &&& res == section_override(c.metadata.left, t).1
            &&& r.metadata.top == c.metadata.top
            &&& r.lyrics == c.lyrics
        }),
{
    reveal(left_section_step);
}

/// A `[metadata]` table that reads: its `enabled` is taken; a section
/// table it holds gives that section its enabled flag, template,
/// alignment, truncation and band size, each where given, and the others
/// stay; the table's style and animation reach both sections where their
/// own tables give none; the lyrics and the top-level settings stay.
pub proof fn law_metadata_table_takes_the_files_values(c: Config, m: FileMetadata)
    requires
        metadata_override(c, m).1 is Ok,
    ensures
        ({
            let r = metadata_override(c, m).0;
            &&& m.enabled matches Some(b) ==> r.metadata.enabled == b
            &&& m.enabled is None ==> r.metadata.enabled == c.metadata.enabled
            &&& m.top is None ==> same_section_settings(c.metadata.top, r.metadata.top)
            &&& m.left is None ==> same_section_settings(c.metadata.left, r.metadata.left)
            &&& m.top matches Some(t) ==> (t.enabled matches Some(b) ==> r.metadata.top.enabled == b)
                && (t.template matches Some(x) ==> r.metadata.top.template == x)
                && (t.align matches Some(v) ==> section_align_parsed(v@) == Ok::<SectionAlign, Seq<char>>(
                r.metadata.top.align,
            )) && (t.truncate matches Some(v) ==> truncate_mode_parsed(v@) == Ok::<
                TruncateMode,
                Seq<char>,
            >(r.metadata.top.truncate))
            &&& m.left matches Some(t) ==> (t.enabled matches Some(b) ==> r.metadata.left.enabled == b)
                && (t.template matches Some(x) ==> r.metadata.left.template == x)
                && (t.align matches Some(v) ==> section_align_parsed(v@) == Ok::<SectionAlign, Seq<char>>(
                r.metadata.left.align,
            )) && (t.truncate matches Some(v) ==> truncate_mode_parsed(v@) == Ok::<
                TruncateMode,
                Seq<char>,
            >(r.metadata.left.truncate))
            &&& (m.top is None || m.top->0.style is None) ==> (m.style matches Some(st) ==> style_taken(
                c.metadata.top.style,
                st,
                r.metadata.top.style,
            )) && (m.style is None ==> r.metadata.top.style == c.metadata.top.style)
            &&& (m.left is None || m.left->0.style is None) ==> (m.style matches Some(st) ==> style_taken(
                c.metadata.left.style,
                st,
                r.metadata.left.style,
            )) && (m.style is None ==> r.metadata.left.style == c.metadata.left.style)
            &&& (m.top is None || m.top->0.animation is None) ==> (m.animation matches Some(a)
                ==> animation_taken(c.metadata.top.animation, a, r.metadata.top.animation)) && (
            m.animation is None ==> r.metadata.top.animation == c.metadata.top.animation)
            &&& (m.left is None || m.left->0.animation is None) ==> (m.animation matches Some(a)
                ==> animation_taken(c.metadata.left.animation, a, r.metadata.left.animation)) && (
            m.animation is None ==> r.metadata.left.animation == c.metadata.left.animation)
            &&& r.lyrics == c.lyrics
            &&& same_top_level(c, r)
        }),
{
    let c1 = metadata_head(c, m);
    lemma_metadata_head_fields(c, m);
    let c3 = match m.animation {
        Some(a) => {
            lemma_top_animation_step_fields(c1, a);
            let c2 = top_animation_step(c1, a).0;
            lemma_left_animation_step_fields(c2, a);
            left_animation_step(c2, a).0
        },
        None => c1,
    };
    lemma_metadata_keeps_top_level(c, m);
    match m.top {
        Some(t) => {
            lemma_top_section_step_fields(c3, t);
            let (c4, r4) = top_section_step(c3, t);
            law_section_settings_take_the_files_values(c3.metadata.top, t);
            match m.left {
                Some(l) => {
                    lemma_left_section_step_fields(c4, l);
                    law_section_settings_take_the_files_values(c4.metadata.left, l);
                },
                None => {},
            }
        },
        None => match m.left {
            Some(l) => {
                lemma_left_section_step_fields(c3, l);
                law_section_settings_take_the_files_values(c3.metadata.left, l);
            },
            None => {},
        },
    }
}

} // verus!
