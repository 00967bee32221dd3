use covermint::cli::{next_arg, parse_i32, parse_u32, parse_u64, parse_usize, FloatArg, StartupAction};
use covermint::model::config::{Config, Placement, ShellLayer, Transition};

fn strings(args: &[&str]) -> Vec<String> {
    args.iter().map(|a| a.to_string()).collect()
}

fn floats_of(args: &[String]) -> Vec<FloatArg> {
    args.iter()
        .map(|a| match a.parse::<f64>() {
            Ok(v) if (0.0..=1.0).contains(&v) => FloatArg::InUnitRange(v.to_bits()),
            Ok(_) => FloatArg::OutOfUnitRange,
            Err(_) => FloatArg::NotANumber,
        })
        .collect()
}

fn run(args: &[&str]) -> Result<StartupAction, String> {
    let args = strings(args);
    let floats = floats_of(&args);
    StartupAction::from_args(&args, &floats, Config::default())
}

fn config_of(args: &[&str]) -> Config {
    match run(args) {
        Ok(StartupAction::Run(config)) => *config,
        Ok(_) => panic!("expected a run"),
        Err(e) => panic!("unexpected error: {e}"),
    }
}

#[test]
fn margin_sets_both_offsets() {
    let c = config_of(&["--margin", "32"]);
    assert_eq!((c.offset_x, c.offset_y), (32, 32));
}

#[test]
fn size_sets_width_and_height() {
    let c = config_of(&["--size", "300", "--height", "200"]);
    assert_eq!((c.width, c.height), (300, 200));
}

#[test]
fn flags_and_values_are_read() {
    let c = config_of(&[
        "--monitor", "HDMI-A-1", "--player", "spotify", "--placement", "center", "--offset-y", "-40",
        "--transition", "flip", "--transition-ms", "220", "--layer", "bottom", "--show-paused",
        "--no-cache", "--cache-max-mb", "3", "--opacity", "0.5",
    ]);
    assert_eq!(c.monitor_selector, "HDMI-A-1");
    assert_eq!(c.player, "spotify");
    assert_eq!(c.placement, Placement::Center);
    assert_eq!(c.offset_y, -40);
    assert_eq!(c.transition, Transition::Flip);
    assert_eq!(c.transition_ms, 220);
    assert_eq!(c.layer, ShellLayer::Bottom);
    assert!(c.show_paused);
    assert!(!c.cache_enabled);
    assert_eq!(c.cache_max_bytes, 3 * 1024 * 1024);
    assert_eq!(f64::from_bits(c.opacity_bits), 0.5);
}

#[test]
fn help_wins_immediately() {
    assert!(matches!(run(&["--help", "--bogus"]), Ok(StartupAction::Help)));
    assert!(matches!(run(&["-h"]), Ok(StartupAction::Help)));
}

#[test]
fn listing_actions() {
    assert!(matches!(run(&["--list-players", "--init-config"]), Ok(StartupAction::InitConfig)));
    assert!(matches!(run(&["--list-players", "--list-monitors"]), Ok(StartupAction::ListMonitors)));
    assert!(matches!(run(&["--list-players"]), Ok(StartupAction::ListPlayers)));
}

#[test]
fn errors_name_the_flag() {
    assert_eq!(run(&["--width"]).err(), Some("missing value for --width".to_string()));
    assert_eq!(run(&["--width", "wide"]).err(), Some("invalid integer for --width: wide".to_string()));
    assert_eq!(run(&["--frobnicate"]).err(), Some("unknown argument: --frobnicate".to_string()));
    assert_eq!(
        run(&["--opacity", "abc"]).err(),
        Some("invalid number for --opacity: abc".to_string())
    );
    assert_eq!(
        run(&["--opacity", "1.5"]).err(),
        Some("unsupported --opacity value '1.5', expected a number between 0.0 and 1.0".to_string())
    );
}

#[test]
fn slide_at_center_is_refused_after_reading() {
    assert_eq!(
        run(&["--transition", "cover", "--placement", "center"]).err(),
        Some("--transition cover requires a placement adjacent to a screen edge, got 'center'".to_string())
    );
}

#[test]
fn number_parsers() {
    assert_eq!(parse_i32("-12".to_string(), "--x"), Ok(-12));
    assert_eq!(parse_i32("+7".to_string(), "--x"), Ok(7));
    assert_eq!(parse_i32("2147483648".to_string(), "--x"), Err("invalid integer for --x: 2147483648".to_string()));
    assert_eq!(parse_u32("-1".to_string(), "--y"), Err("invalid integer for --y: -1".to_string()));
    assert_eq!(parse_u64("18446744073709551615".to_string(), "--z"), Ok(u64::MAX));
    assert_eq!(parse_usize("".to_string(), "--n"), Err("invalid integer for --n: ".to_string()));
}

#[test]
fn next_arg_takes_the_following_argument() {
    let args = strings(&["--monitor", "eDP-1"]);
    let mut index = 1;
    assert_eq!(next_arg(&args, &mut index, "--monitor"), Ok("eDP-1".to_string()));
    assert_eq!(index, 2);
    assert_eq!(next_arg(&args, &mut index, "--monitor"), Err("missing value for --monitor".to_string()));
}

#[test]
fn flags_override_file_settings() {
    let mut settings = Config::default();
    settings.width = 111;
    settings.offset_x = 5;
    let args = strings(&["--width", "222"]);
    let floats = floats_of(&args);
    match StartupAction::from_args(&args, &floats, settings) {
        Ok(StartupAction::Run(c)) => {
            assert_eq!(c.width, 222);
            assert_eq!(c.offset_x, 5);
        }
        _ => panic!("expected a run"),
    }
}
