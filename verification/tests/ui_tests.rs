use covermint::control::ControlCommand;
use covermint::lyrics::lrc::parse_synced_lyrics;
use covermint::model::config::{AxisPlacement, Config, Placement};
use covermint::model::lyrics::LyricsLayout;
use covermint::model::media::{MediaState, PlaybackStatus, TrackMetadata};
use covermint::model::metadata::MetadataStyleConfig;
use covermint::ui::layout::{
    axis_offset, cover_frame_size, fallback_anchor_edges, layout_window_size, lyrics_frame_size,
    lyrics_panel_bottom_height, lyrics_panel_left_width, lyrics_singleline_height,
    metadata_band_sizes, multiline_slots, panel_base_size, window_anchor, ScreenEdge,
};
use covermint::ui::playback_clock::{PlaybackClock, TrackIdentity};
use covermint::ui::runtime::{
    artwork_needs_reload, cover_step, lyrics_need_lookup, lyrics_position, lyrics_view, lyrics_visibility_after,
    media_miss_step, next_playback_clock, position_tick, reported_length, reported_position,
    scroll_shift_state, should_animate_metadata, slot_line_index, track_data_wanted, LyricsView,
    CoverAction, CoverEvent, PositionTick, ScrollAnimation,
};
use covermint::ui::style::{metadata_label_css, styles_css};

fn track(title: &str) -> TrackMetadata {
    TrackMetadata {
        artist: "Artist".to_string(),
        title: title.to_string(),
        album: "Album".to_string(),
        track_number: "1".to_string(),
        length: "3:00".to_string(),
        length_microseconds: Some(180_000_000),
        position: "0:10".to_string(),
        position_microseconds: Some(10_000_000),
    }
}

fn playing(title: &str) -> MediaState {
    MediaState { status: PlaybackStatus::Playing, art_url: Some("https://x/a.jpg".to_string()), metadata: track(title) }
}

#[test]
fn frame_and_window_sizes() {
    let mut c = Config::default();
    c.border_width = 3;
    assert_eq!(cover_frame_size(&c), (426, 426));
    assert_eq!(metadata_band_sizes(&c), (34, 40));
    assert_eq!(panel_base_size(&c), (460, 466));
    assert_eq!(lyrics_singleline_height(&c), 24 + 24 + 8);
    assert_eq!(lyrics_panel_bottom_height(&c), 56);
    assert_eq!(lyrics_panel_left_width(&c), 0);
    assert_eq!(layout_window_size(&c), (460, 522));
    assert_eq!(lyrics_frame_size(&c), (460, 56));
    c.lyrics.layout = LyricsLayout::MultiLine;
    c.lyrics.panel_width = 100;
    assert_eq!(lyrics_panel_left_width(&c), 128);
    assert_eq!(layout_window_size(&c), (588, 466));
    assert_eq!(lyrics_frame_size(&c), (120, 466));
    c.metadata.enabled = false;
    assert_eq!(metadata_band_sizes(&c), (0, 0));
    c.lyrics.style.font_size_px = 1;
    c.lyrics.style.padding_px = 0;
    assert_eq!(lyrics_singleline_height(&c), 40);
}

#[test]
fn axis_offsets() {
    assert_eq!(axis_offset(AxisPlacement::Start, 1920, 500, 48), 48);
    assert_eq!(axis_offset(AxisPlacement::End, 1920, 500, 48), 1372);
    assert_eq!(axis_offset(AxisPlacement::Center, 1920, 501, 0), 709);
    assert_eq!(axis_offset(AxisPlacement::Center, 100, 201, 0), -50);
    assert_eq!(axis_offset(AxisPlacement::Center, 1920, 500, -40), 670);
}

#[test]
fn window_anchors() {
    let mut c = Config::default();
    c.metadata.enabled = false;
    let a = window_anchor(&c, Some((1920, 1080)));
    assert_eq!((a.horizontal_edge, a.vertical_edge), (ScreenEdge::Left, ScreenEdge::Top));
    let (w, h) = layout_window_size(&c);
    assert_eq!((a.margin_x, a.margin_y), (1920 - w - 48, 1080 - h - 48));
    let a = window_anchor(&c, None);
    assert_eq!((a.horizontal_edge, a.vertical_edge, a.margin_x, a.fell_back), (ScreenEdge::Right, ScreenEdge::Bottom, 48, false));
    c.placement = Placement::Center;
    let a = window_anchor(&c, None);
    assert_eq!((a.horizontal_edge, a.vertical_edge, a.fell_back), (ScreenEdge::Left, ScreenEdge::Top, true));
    assert_eq!(fallback_anchor_edges(Placement::TopRight), Some((ScreenEdge::Right, ScreenEdge::Top)));
    assert_eq!(fallback_anchor_edges(Placement::Bottom), None);
}

#[test]
fn multiline_rows_are_odd() {
    assert_eq!(multiline_slots(0), (1, 0));
    assert_eq!(multiline_slots(4), (5, 2));
    assert_eq!(multiline_slots(7), (7, 3));
}

#[test]
fn label_css_clamps_sizes() {
    let mut style = MetadataStyleConfig::default();
    style.padding_px = -4;
    style.font_size_px = 0;
    style.font_weight = 50;
    assert_eq!(
        metadata_label_css(".covermint-meta-top", &style),
        ".covermint-meta-top .covermint-meta-label { color: rgba(255,255,255,0.94); background-color: rgba(0,0,0,0.30); padding: 0px; font-family: 'Inter, Sans'; font-size: 1px; font-weight: 100; }"
    );
}

#[test]
fn style_sheet() {
    let mut c = Config::default();
    c.border_width = 4;
    c.corner_radius = 18;
    let css = styles_css(&c);
    let lines: Vec<&str> = css.lines().collect();
    assert_eq!(lines.len(), 8);
    assert_eq!(lines[0], ".covermint-window { background-color: transparent; box-shadow: none; border-radius: 18px; }");
    assert!(lines[1].contains("border-width: 4px; border-color: rgba(255,255,255,0.35); border-radius: 18px;"));
    assert!(lines[2].ends_with("border-radius: 14px; }"));
    assert!(lines[3].contains("min-height: 40px;"));
    assert!(lines[4].contains("min-width: 34px;"));
    assert!(lines[5].contains("background-color: rgba(0,0,0,0.30);"));
    assert!(lines[6].starts_with(".covermint-meta-top .covermint-meta-label"));
    assert!(lines[7].contains("font-size: 18px;"));
}

#[test]
fn track_identity_joins_its_parts() {
    let id = TrackIdentity::from_metadata(Some("u"), &track("T"));
    assert_eq!(id.0, "Artist\u{1f}T\u{1f}Album\u{1f}1\u{1f}3:00\u{1f}u");
    let none = TrackIdentity::from_metadata(None, &track("T"));
    assert_eq!(none.0, "Artist\u{1f}T\u{1f}Album\u{1f}1\u{1f}3:00\u{1f}");
    assert!(!id.same_as(&none));
}

#[test]
fn clock_runs_on_and_is_held_at_the_length() {
    let id = TrackIdentity::from_metadata(None, &track("T"));
    let clock = PlaybackClock::sync(None, id, 10_000_000, Some(12_000_000), 1_000);
    assert_eq!(clock.position_microseconds_now(1_000), 10_000_000);
    assert_eq!(clock.position_microseconds_now(501_000), 10_500_000);
    assert_eq!(clock.position_microseconds_now(0), 10_000_000);
    assert_eq!(clock.clamped_position_microseconds_now(5_001_000), 12_000_000);
}

#[test]
fn clock_keeps_running_unless_it_strays_or_the_track_changes() {
    let id = || TrackIdentity::from_metadata(None, &track("T"));
    let clock = PlaybackClock::sync(None, id(), 10_000_000, None, 0);
    let kept = PlaybackClock::sync(Some(clock), id(), 11_300_000, Some(1), 1_000_000);
    assert_eq!(kept.anchor_time_microseconds, 0);
    assert_eq!(kept.anchor_position_microseconds, 10_000_000);
    assert_eq!(kept.length_microseconds, Some(1));
    let moved = PlaybackClock::sync(Some(kept), id(), 30_000_000, None, 2_000_000);
    assert_eq!((moved.anchor_position_microseconds, moved.anchor_time_microseconds), (30_000_000, 2_000_000));
    let other = TrackIdentity::from_metadata(None, &track("U"));
    let fresh = PlaybackClock::sync(Some(moved), other, 30_000_000, None, 2_000_001);
    assert_eq!(fresh.anchor_time_microseconds, 2_000_001);
    assert_eq!(fresh.track().0, TrackIdentity::from_metadata(None, &track("U")).0);
}

#[test]
fn refresh_decisions() {
    let c = Config::default();
    let w = track_data_wanted(&c, true, false);
    assert!(w.metadata && !w.lyrics);
    assert_eq!(media_miss_step(None, 7), (Some(7), false));
    assert_eq!(media_miss_step(Some(7), 5_000_006), (Some(7), false));
    assert_eq!(media_miss_step(Some(7), 5_000_007), (Some(7), true));
    assert!(artwork_needs_reload(None, "a"));
    assert!(!artwork_needs_reload(Some("a"), "a"));
    assert!(artwork_needs_reload(Some("a"), "b"));
    assert!(lyrics_need_lookup(Some("k1"), "k2"));
    assert!(!lyrics_need_lookup(Some("k"), "k"));
    assert!(lyrics_visibility_after(ControlCommand::Toggle, false));
    assert!(!lyrics_visibility_after(ControlCommand::Toggle, lyrics_visibility_after(ControlCommand::Toggle, false)));
    assert!(!lyrics_visibility_after(ControlCommand::Off, true));
}

#[test]
fn metadata_animates_only_on_a_new_track() {
    let mut last = None;
    assert!(should_animate_metadata(&mut last, Some("u"), &track("T")));
    assert!(!should_animate_metadata(&mut last, Some("u"), &track("T")));
    assert!(should_animate_metadata(&mut last, Some("u"), &track("U")));
}

#[test]
fn reported_times_fall_back_to_text() {
    let mut m = track("T");
    m.position_microseconds = None;
    m.length_microseconds = None;
    assert_eq!(reported_position(&m), Some(10_000_000));
    assert_eq!(reported_length(&m), Some(180_000_000));
    m.position = "soon".to_string();
    assert_eq!(reported_position(&m), None);
}

#[test]
fn playback_clock_follows_playing_players_only() {
    let mut paused = playing("T");
    paused.status = PlaybackStatus::Paused;
    assert!(next_playback_clock(None, &paused, 0).is_none());
    let c = next_playback_clock(None, &playing("T"), 5).unwrap();
    assert_eq!((c.anchor_position_microseconds, c.anchor_time_microseconds, c.length_microseconds), (10_000_000, 5, Some(180_000_000)));
}

#[test]
fn lyrics_panel_views() {
    let lyrics = parse_synced_lyrics(Some("[00:05.00]a\n[00:10.00]b")).unwrap();
    assert_eq!(lyrics_view(Some(&lyrics), false, LyricsLayout::SingleLine, 6_000_000), LyricsView::Line(0));
    assert_eq!(lyrics_view(Some(&lyrics), false, LyricsLayout::SingleLine, 0), LyricsView::Waiting);
    assert_eq!(lyrics_view(Some(&lyrics), false, LyricsLayout::SingleLine, 1), LyricsView::Blank { faded: false });
    assert_eq!(lyrics_view(None, true, LyricsLayout::MultiLine, 1), LyricsView::Blank { faded: true });
    assert_eq!(lyrics_view(None, true, LyricsLayout::SingleLine, 1), LyricsView::Blank { faded: false });
    assert_eq!(slot_line_index(5, 0, 3), Some(2));
    assert_eq!(slot_line_index(1, 0, 3), None);
    assert_eq!(slot_line_index(1, 6, 3), Some(4));
}

#[test]
fn scroll_animation_runs_for_single_steps() {
    let (cur, anim, shift) = scroll_shift_state(true, Some(3), None, 4, 1_000);
    assert_eq!(cur, Some(4));
    assert_eq!(anim, Some(ScrollAnimation { from_index: 3, to_index: 4, started_at: 1_000 }));
    assert_eq!(shift, Some((0, 1)));
    let (_, anim2, shift2) = scroll_shift_state(true, Some(4), anim, 4, 100_000);
    assert_eq!(anim2, anim);
    assert_eq!(shift2, Some((99_000, 1)));
    let (_, anim3, shift3) = scroll_shift_state(true, Some(4), anim, 4, 241_000);
    assert_eq!((anim3, shift3), (None, None));
    let (_, anim4, _) = scroll_shift_state(true, Some(1), None, 4, 0);
    assert_eq!(anim4, None);
    assert_eq!(scroll_shift_state(false, Some(3), anim, 4, 0), (Some(4), None, None));
}

#[test]
fn position_ticks() {
    let c = Config::default();
    let wanted = track_data_wanted(&c, false, false);
    let state = playing("T");
    let id = TrackIdentity::from_metadata(Some("https://x/a.jpg"), &state.metadata);
    let clock = PlaybackClock::sync(None, id, 10_000_000, Some(180_000_000), 0);
    match position_tick(wanted, Some(&clock), Some(&state), 2_000_000) {
        PositionTick::Update(text, at) => assert_eq!((text.as_str(), at), ("0:12", 12_000_000)),
        _ => panic!("expected an update"),
    }
    assert!(matches!(position_tick(wanted, Some(&clock), Some(&state), 500_000), PositionTick::Skip));
    let both = track_data_wanted(&c, true, true);
    assert!(matches!(position_tick(both, Some(&clock), Some(&state), 500_000), PositionTick::Lyrics(10_500_000)));
    let other = playing("U");
    assert!(matches!(position_tick(wanted, Some(&clock), Some(&other), 2_000_000), PositionTick::Skip));
    assert_eq!(lyrics_position(Some(&clock), None, 1_000_000), Some(11_000_000));
    assert_eq!(lyrics_position(None, Some(&state), 0), Some(10_000_000));
    assert_eq!(lyrics_position(None, None, 0), None);
}

#[test]
fn cover_after_refresh() {
    let clear_and_hide = CoverAction::Clear { hide_window: true };
    let clear_under_splash = CoverAction::Clear { hide_window: false };
    for had in [false, true] {
        for splash in [false, true] {
            assert_eq!(cover_step(had, CoverEvent::Downloaded, splash), CoverAction::Show);
            assert_eq!(cover_step(had, CoverEvent::SameArtwork, splash), CoverAction::Show);
        }
    }
    assert_eq!(cover_step(true, CoverEvent::DownloadFailed, false), CoverAction::Show);
    assert_eq!(cover_step(false, CoverEvent::DownloadFailed, false), clear_and_hide);
    assert_eq!(cover_step(false, CoverEvent::DownloadFailed, true), clear_under_splash);
    assert_eq!(cover_step(true, CoverEvent::NoArtwork, false), CoverAction::Show);
    assert_eq!(cover_step(false, CoverEvent::NoArtwork, true), clear_under_splash);
    assert_eq!(cover_step(true, CoverEvent::NoPlayer { grace_over: false }, false), CoverAction::Show);
    assert_eq!(cover_step(true, CoverEvent::NoPlayer { grace_over: true }, false), clear_and_hide);
    assert_eq!(cover_step(false, CoverEvent::NoPlayer { grace_over: false }, false), clear_and_hide);
    assert_eq!(cover_step(false, CoverEvent::NoPlayer { grace_over: false }, true), clear_under_splash);
}
