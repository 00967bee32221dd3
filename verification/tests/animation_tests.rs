use covermint::metadata::animation::{animation_enabled, markup_from_visibility, reveal_order};
use covermint::metadata::widgets::{Truncation, TruncationStep};
use covermint::model::metadata::{MetadataConfig, RevealDirection, TextAnimationMode, TruncateMode};

fn chars(s: &str) -> Vec<char> {
    s.chars().collect()
}

#[test]
fn reveal_orders_by_direction() {
    let c = chars("ab\ncd");
    assert_eq!(reveal_order(&c, RevealDirection::LeftToRight), vec![0, 3, 1, 4]);
    assert_eq!(reveal_order(&c, RevealDirection::RightToLeft), vec![1, 4, 0, 3]);
    assert_eq!(reveal_order(&c, RevealDirection::TopToBottom), vec![0, 1, 3, 4]);
    assert_eq!(reveal_order(&c, RevealDirection::BottomToTop), vec![3, 4, 0, 1]);
    assert_eq!(reveal_order(&c, RevealDirection::TopLeftToBottomRight), vec![0, 1, 3, 4]);
    assert_eq!(reveal_order(&c, RevealDirection::BottomRightToTopLeft), vec![4, 3, 1, 0]);
    assert_eq!(reveal_order(&chars("\n\n"), RevealDirection::LeftToRight), Vec::<usize>::new());
}

#[test]
fn reveal_goes_down_a_column() {
    let c = chars("x\ny\nz");
    assert_eq!(reveal_order(&c, RevealDirection::LeftToRight), vec![0, 2, 4]);
}

#[test]
fn animation_needs_mode_and_duration() {
    let mut section = MetadataConfig::default().top;
    assert!(animation_enabled(&section));
    section.animation.duration_ms = 0;
    assert!(!animation_enabled(&section));
    section.animation.duration_ms = 10;
    section.animation.mode = TextAnimationMode::Off;
    assert!(!animation_enabled(&section));
}

#[test]
fn visibility_markup() {
    let c = chars("a<\nb");
    let escaped = vec!["a".to_string(), "&lt;".to_string(), "\n".to_string(), "b".to_string()];
    let visible = vec![true, false, false];
    assert_eq!(
        markup_from_visibility(&c, &escaped, &visible, 40000),
        "<span alpha=\"40000\">a</span><span alpha=\"1\">&lt;</span>\n<span alpha=\"1\">b</span>"
    );
    assert_eq!(markup_from_visibility(&chars("a"), &vec!["a".to_string()], &[true], 0), "<span alpha=\"1\">a</span>");
}

fn run_truncation(text: &str, mode: TruncateMode, fits: impl Fn(&str) -> bool) -> (String, usize) {
    let (mut t, mut step) = Truncation::start(text, mode);
    let mut measured = 0;
    loop {
        match step {
            TruncationStep::Done(s) => return (s, measured),
            TruncationStep::Measure(candidate) => {
                measured += 1;
                step = t.advance(fits(&candidate));
            }
        }
    }
}

#[test]
fn truncation_finds_the_longest_cut_that_fits() {
    let fits = |s: &str| s.chars().count() <= 6;
    assert_eq!(run_truncation("Short", TruncateMode::End, fits).0, "Short");
    assert_eq!(run_truncation("A longer title", TruncateMode::End, fits).0, "A lon\u{2026}");
    assert_eq!(run_truncation("A longer title", TruncateMode::Start, fits).0, "\u{2026}title");
    assert_eq!(run_truncation("", TruncateMode::End, fits), (String::new(), 0));
    assert_eq!(run_truncation("Anything", TruncateMode::End, |_| false).0, "\u{2026}");
}
