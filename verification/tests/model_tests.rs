use covermint::model::config::{ArtworkFit, AxisPlacement, Config, Placement, ShellLayer, Transition};
use covermint::model::lyrics::LyricsLayout;
use covermint::model::media::{ArtworkSlot, PlaybackStatus, TrackMetadata};
use covermint::model::metadata::{RevealDirection, SectionAlign, TextAnimationMode, TruncateMode};

#[test]
fn shell_layer_reads_exact_names() {
    assert_eq!(ShellLayer::parse("background"), Ok(ShellLayer::Background));
    assert_eq!(ShellLayer::parse("bottom"), Ok(ShellLayer::Bottom));
    assert_eq!(
        ShellLayer::parse("Top"),
        Err("unsupported --layer value 'Top', expected background or bottom".to_string())
    );
}

#[test]
fn artwork_fit_reads_trimmed_in_any_case() {
    assert_eq!(ArtworkFit::parse(" Contain "), Ok(ArtworkFit::Contain));
    assert_eq!(ArtworkFit::parse("COVER"), Ok(ArtworkFit::Cover));
    assert_eq!(ArtworkFit::parse("fill"), Ok(ArtworkFit::Fill));
    assert_eq!(
        ArtworkFit::parse(" Stretch "),
        Err("unsupported artwork_fit value 'stretch', expected contain, cover, or fill".to_string())
    );
}

#[test]
fn transition_reads_every_label_back() {
    let all = [
        Transition::Off,
        Transition::Fade,
        Transition::Flip,
        Transition::Hinge,
        Transition::Slide,
        Transition::Cover,
    ];
    for t in all {
        assert_eq!(Transition::parse(t.label()), Ok(t));
        assert_eq!(Transition::parse(&t.label().to_uppercase()), Ok(t));
    }
    assert_eq!(Transition::Off.label(), "none");
    assert!(Transition::parse("wipe").is_err());
}

#[test]
fn placement_reads_every_label_back() {
    let all = [
        Placement::TopLeft,
        Placement::Top,
        Placement::TopRight,
        Placement::Left,
        Placement::Center,
        Placement::Right,
        Placement::BottomLeft,
        Placement::Bottom,
        Placement::BottomRight,
    ];
    for p in all {
        assert_eq!(Placement::parse(p.label()), Ok(p));
    }
    assert_eq!(Placement::BottomRight.label(), "bottom-right");
    assert!(Placement::parse("upper").is_err());
    assert_eq!(Placement::parse("Middle"), Ok(Placement::Center));
}

#[test]
fn placement_axes() {
    assert_eq!(Placement::TopLeft.horizontal(), AxisPlacement::Start);
    assert_eq!(Placement::TopLeft.vertical(), AxisPlacement::Start);
    assert_eq!(Placement::Center.horizontal(), AxisPlacement::Center);
    assert_eq!(Placement::Center.vertical(), AxisPlacement::Center);
    assert_eq!(Placement::BottomRight.horizontal(), AxisPlacement::End);
    assert_eq!(Placement::BottomRight.vertical(), AxisPlacement::End);
    assert_eq!(Placement::Right.vertical(), AxisPlacement::Center);
}

#[test]
fn only_center_has_no_edge_for_slides() {
    assert!(!Placement::Center.supports_edge_anchored_transition());
    assert!(Placement::Top.supports_edge_anchored_transition());
    assert!(Placement::BottomLeft.supports_edge_anchored_transition());
    assert_eq!(Placement::Center.edge_motion_direction(), None);
    assert!(Placement::Left.edge_motion_direction().is_some());
}

#[test]
fn validate_refuses_slide_at_center() {
    let mut config = Config::default();
    config.transition = Transition::Slide;
    config.placement = Placement::Center;
    assert_eq!(
        config.validate(),
        Err("--transition slide requires a placement adjacent to a screen edge, got 'center'".to_string())
    );
    config.placement = Placement::Top;
    assert_eq!(config.validate(), Ok(()));
    config.transition = Transition::Fade;
    config.placement = Placement::Center;
    assert_eq!(config.validate(), Ok(()));
}

#[test]
fn config_defaults() {
    let c = Config::default();
    assert_eq!(c.monitor_selector, "auto");
    assert_eq!(c.player, "auto");
    assert_eq!((c.width, c.height), (420, 420));
    assert_eq!(c.placement, Placement::BottomRight);
    assert_eq!((c.offset_x, c.offset_y), (48, 48));
    assert_eq!(c.transition, Transition::Fade);
    assert_eq!(c.transition_ms, 180);
    assert_eq!(c.poll_seconds, 2);
    assert!(c.cache_enabled);
    assert_eq!(c.cache_max_files, 128);
    assert_eq!(c.cache_max_bytes, 256 * 1024 * 1024);
    assert_eq!(f64::from_bits(c.opacity_bits), 1.0);
    assert_eq!(c.metadata.top.template, "{{artist}}");
    assert_eq!(c.metadata.left.template, "{{title}}");
    assert_eq!(c.lyrics.layout, LyricsLayout::SingleLine);
    assert!(!c.lyrics.enabled);
}

#[test]
fn section_enums_parse() {
    assert_eq!(SectionAlign::parse("end"), Ok(SectionAlign::End));
    assert_eq!(TruncateMode::parse("start"), Ok(TruncateMode::Start));
    assert_eq!(TextAnimationMode::parse("typewriter"), Ok(TextAnimationMode::Typewriter));
    assert_eq!(TextAnimationMode::parse("none"), Ok(TextAnimationMode::Off));
    assert!(RevealDirection::parse("diagonal-ish").is_err());
    assert_eq!(LyricsLayout::parse(" Multi-Line "), Ok(LyricsLayout::MultiLine));
    assert!(LyricsLayout::parse("columns").is_err());
}

#[test]
fn artwork_slot_other_twice_returns() {
    assert_eq!(ArtworkSlot::Primary.other(), ArtworkSlot::Secondary);
    assert_eq!(ArtworkSlot::Primary.other().other(), ArtworkSlot::Primary);
}

#[test]
fn playback_status_visibility_and_rank() {
    assert!(PlaybackStatus::Playing.should_show_artwork(false));
    assert!(!PlaybackStatus::Paused.should_show_artwork(false));
    assert!(PlaybackStatus::Paused.should_show_artwork(true));
    assert!(!PlaybackStatus::NotPlaying.should_show_artwork(true));
    assert!(PlaybackStatus::Playing.auto_select_rank() > PlaybackStatus::Paused.auto_select_rank());
    assert!(PlaybackStatus::Paused.auto_select_rank() > PlaybackStatus::NotPlaying.auto_select_rank());
}

#[test]
fn track_metadata_default_is_blank() {
    let m = TrackMetadata::default();
    assert!(m.artist.is_empty() && m.title.is_empty() && m.position.is_empty());
    assert_eq!(m.length_microseconds, None);
}
