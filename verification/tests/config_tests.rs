use covermint::config::{
    apply_animation_override, apply_file_config, apply_lyrics_override, apply_section_override,
    apply_style_override, fall_back_to_default_templates, FileAnimation, FileConfig, FileLyrics,
    FileMetadata, FileMetadataSection, FileMetadataStyle, FileOpacity,
};
use covermint::model::config::{ArtworkFit, Config, Placement, ShellLayer};
use covermint::model::lyrics::{LyricsConfig, LyricsLayout};
use covermint::model::metadata::{
    MetadataConfig, MetadataStyleConfig, RevealDirection, SectionAlign, TextAnimationConfig,
    TextAnimationMode, TruncateMode,
};

fn empty_file() -> FileConfig {
    FileConfig {
        monitor: None,
        player: None,
        size: None,
        width: None,
        height: None,
        artwork_fit: None,
        placement: None,
        offset_x: None,
        offset_y: None,
        margin: None,
        border_width: None,
        border_color: None,
        corner_radius: None,
        opacity: None,
        transition: None,
        transition_ms: None,
        poll_seconds: None,
        show_paused: None,
        no_cache: None,
        cache_max_files: None,
        cache_max_mb: None,
        layer: None,
        metadata: None,
        lyrics: None,
    }
}

fn empty_style() -> FileMetadataStyle {
    FileMetadataStyle {
        font_family: None,
        font_size_px: None,
        font_weight: None,
        text_color: None,
        background_color: None,
        padding_px: None,
    }
}

fn empty_section() -> FileMetadataSection {
    FileMetadataSection {
        enabled: None,
        template: None,
        align: None,
        truncate: None,
        band_size_px: None,
        style: None,
        animation: None,
    }
}

fn empty_lyrics() -> FileLyrics {
    FileLyrics {
        enabled: None,
        layout: None,
        lines_visible: None,
        panel_width: None,
        smooth_scroll: None,
        font_family: None,
        font_size_px: None,
        text_color: None,
        active_line_color: None,
        background_color: None,
        padding_px: None,
    }
}

#[test]
fn file_settings_are_laid_over_in_order() {
    let mut config = Config::default();
    let mut file = empty_file();
    file.size = Some(300);
    file.height = Some(250);
    file.offset_x = Some(10);
    file.margin = Some(20);
    file.artwork_fit = Some("Contain".to_string());
    file.placement = Some("tl".to_string());
    file.cache_max_mb = Some(2);
    file.no_cache = Some(true);
    file.layer = Some("bottom".to_string());
    let warnings = apply_file_config(&mut config, &file).unwrap();
    assert!(warnings.is_empty());
    assert_eq!((config.width, config.height), (300, 250));
    assert_eq!((config.offset_x, config.offset_y), (20, 20));
    assert_eq!(config.artwork_fit, ArtworkFit::Contain);
    assert_eq!(config.placement, Placement::TopLeft);
    assert_eq!(config.cache_max_bytes, 2 * 1024 * 1024);
    assert!(!config.cache_enabled);
    assert_eq!(config.layer, ShellLayer::Bottom);
}

#[test]
fn a_bad_value_stops_with_its_message() {
    let mut config = Config::default();
    let mut file = empty_file();
    file.width = Some(111);
    file.placement = Some("nowhere".to_string());
    file.height = Some(222);
    let result = apply_file_config(&mut config, &file);
    assert!(result.unwrap_err().starts_with("unsupported --placement value 'nowhere'"));
    assert_eq!(config.width, 111);
    assert_eq!(config.height, 222);
}

#[test]
fn opacity_out_of_range_is_refused() {
    let mut config = Config::default();
    let mut file = empty_file();
    file.opacity = Some(FileOpacity { bits: 1.5f64.to_bits(), in_unit_range: false, text: "1.5".to_string() });
    assert_eq!(
        apply_file_config(&mut config, &file),
        Err("unsupported opacity value '1.5', expected a number between 0.0 and 1.0".to_string())
    );
    let mut file = empty_file();
    file.opacity = Some(FileOpacity { bits: 0.25f64.to_bits(), in_unit_range: true, text: "0.25".to_string() });
    assert!(apply_file_config(&mut config, &file).is_ok());
    assert_eq!(f64::from_bits(config.opacity_bits), 0.25);
}

#[test]
fn malformed_template_falls_back_with_a_warning() {
    let mut config = Config::default();
    let mut file = empty_file();
    let mut top = empty_section();
    top.template = Some("{{artist".to_string());
    let mut left = empty_section();
    left.template = Some("{{album}} - {{title:start}}".to_string());
    file.metadata = Some(FileMetadata { enabled: None, style: None, animation: None, top: Some(top), left: Some(left) });
    let warnings = apply_file_config(&mut config, &file).unwrap();
    assert_eq!(config.metadata.top.template, "{{artist}}");
    assert_eq!(config.metadata.left.template, "{{album}} - {{title:start}}");
    assert_eq!(
        warnings,
        vec!["covermint: invalid metadata.top template (unterminated template placeholder); using default '{artist}'".to_string()]
    );
}

#[test]
fn disabled_sections_keep_their_templates() {
    let mut config = Config::default();
    config.metadata.left.enabled = false;
    config.metadata.left.template = "{{nope}}".to_string();
    let warnings = fall_back_to_default_templates(&mut config);
    assert!(warnings.is_empty());
    assert_eq!(config.metadata.left.template, "{{nope}}");
}

#[test]
fn style_override_raises_sizes() {
    let mut style = MetadataStyleConfig::default();
    let mut source = empty_style();
    source.font_size_px = Some(0);
    source.font_weight = Some(50);
    source.padding_px = Some(-3);
    source.text_color = Some("red".to_string());
    apply_style_override(&mut style, &source);
    assert_eq!(style.font_size_px, 1);
    assert_eq!(style.font_weight, 100);
    assert_eq!(style.padding_px, 0);
    assert_eq!(style.text_color, "red");
    assert_eq!(style.font_family, "Inter, Sans");
}

#[test]
fn animation_override_reads_names() {
    let mut animation = TextAnimationConfig::default();
    let source = FileAnimation {
        mode: Some("typewriter".to_string()),
        direction: Some("br-tl".to_string()),
        duration_ms: Some(99),
    };
    assert_eq!(apply_animation_override(&mut animation, &source), Ok(()));
    assert_eq!(animation.mode, TextAnimationMode::Typewriter);
    assert_eq!(animation.direction, RevealDirection::BottomRightToTopLeft);
    assert_eq!(animation.duration_ms, 99);
    let bad = FileAnimation { mode: Some("spin".to_string()), direction: None, duration_ms: Some(1) };
    assert!(apply_animation_override(&mut animation, &bad).is_err());
    assert_eq!(animation.duration_ms, 99);
}

#[test]
fn section_override_clamps_band() {
    let mut section = MetadataConfig::default().top;
    let mut source = empty_section();
    source.band_size_px = Some(-5);
    source.align = Some("end".to_string());
    source.truncate = Some("start".to_string());
    assert_eq!(apply_section_override(&mut section, &source), Ok(()));
    assert_eq!(section.band_size_px, 0);
    assert_eq!(section.align, SectionAlign::End);
    assert_eq!(section.truncate, TruncateMode::Start);
}

#[test]
fn lyrics_override_clamps_panel() {
    let mut lyrics = LyricsConfig::default();
    let mut source = empty_lyrics();
    source.layout = Some("multi".to_string());
    source.lines_visible = Some(0);
    source.panel_width = Some(50);
    source.padding_px = Some(-1);
    assert_eq!(apply_lyrics_override(&mut lyrics, &source), Ok(()));
    assert_eq!(lyrics.layout, LyricsLayout::MultiLine);
    assert_eq!(lyrics.lines_visible, 1);
    assert_eq!(lyrics.panel_width, 120);
    assert_eq!(lyrics.style.padding_px, 0);
}

#[test]
fn lyrics_table_enables_the_panel() {
    let mut config = Config::default();
    let mut file = empty_file();
    let mut lyrics = empty_lyrics();
    lyrics.enabled = Some(true);
    file.lyrics = Some(lyrics);
    assert!(apply_file_config(&mut config, &file).is_ok());
    assert!(config.lyrics.enabled);
}
