//! The command line: what the arguments ask for and the settings they give.
use vstd::prelude::*;

use crate::model::config::{
    is_edge_transition, placement_label, placement_named, shell_layer_named, transition_label,
    transition_named, Config, Placement, ShellLayer, Transition,
};
use crate::text::{
    chars_equal_str, chars_of, lower_text, message_end, message_str, parse_signed_magnitude, parse_u64_spec,
    parse_u64_text, sat_mul, saturating_mul, signed_text_value,
};

verus! {

pub const USAGE: &'static str = "usage: covermint [--monitor auto|internal|external|0|#0|eDP-1] [--player auto|<name>] [--size 420] [--width 520] [--height 420] [--placement bottom-right] [--offset-x 48] [--offset-y 48] [--margin 48] [--border-width 2] [--border-color 'rgba(255,255,255,0.35)'] [--corner-radius 18] [--opacity 0.92] [--transition fade|flip|hinge|slide|cover|none] [--transition-ms 180] [--poll-seconds 2] [--show-paused] [--no-cache] [--cache-max-files 128] [--cache-max-mb 256] [--layer background|bottom] [--init-config] [--list-monitors] [--list-players] [--help]";

pub enum StartupAction {
    Help,
    InitConfig,
    ListMonitors,
    ListPlayers,
    Run(Box<Config>),
}

/// How an argument reads as an `f64`, as worked out by the caller: not a
/// number, a number outside `0.0..=1.0`, or one inside it (by its bits).
#[derive(Clone, Copy, Debug, PartialEq, Eq, Structural)]
pub enum FloatArg {
    NotANumber,
    OutOfUnitRange,
    InUnitRange(u64),
}

// ---------------------------------------------------------------------------
// Numbers
// ---------------------------------------------------------------------------

pub open spec fn i32_value(s: Seq<char>) -> Option<i32> {
    match signed_text_value(s) {
        Some(v) => if i32::MIN <= v <= i32::MAX {
            Some(v as i32)
        } else {
            None
        },
        None => None,
    }
}

pub open spec fn u32_value(s: Seq<char>) -> Option<u32> {
    match parse_u64_spec(s) {
        Some(v) => if v <= u32::MAX {
            Some(v as u32)
        } else {
            None
        },
        None => None,
    }
}

pub open spec fn usize_value(s: Seq<char>) -> Option<usize> {
    match parse_u64_spec(s) {
        Some(v) => if v <= usize::MAX {
            Some(v as usize)
        } else {
            None
        },
        None => None,
    }
}

pub open spec fn invalid_integer(flag: Seq<char>, value: Seq<char>) -> Seq<char> {
    "invalid integer for "@ + flag + ": "@ + value
}

fn invalid_integer_message(flag: &str, value: &String) -> (r: String)
    ensures
        r@ == invalid_integer(flag@, value@),
{
    let mut s = message_str("invalid integer for ", flag, ": ");
    crate::text::push_str(&mut s, value.as_str());
    s
}

/// The value after a flag, taken from `args` at `*index`, which moves past it.
pub fn next_arg(args: &Vec<String>, index: &mut usize, flag: &str) -> (r: Result<String, String>)
    ensures
        *old(index) < args@.len() ==> r == Ok::<String, String>(args@[*old(index) as int])
            && *final(index) == *old(index) + 1,
        *old(index) >= args@.len() ==> (r matches Err(e) && e@ == "missing value for "@ + flag@)
            && *final(index) == *old(index),
{
    if *index < args.len() {
        let value = args[*index].clone();
        *index = *index + 1;
        Ok(value)
    } else {
        let mut e = "missing value for ".to_owned();
        crate::text::push_str(&mut e, flag);
        Err(e)
    }
}

/// Reads a decimal `i32`, with an optional sign.
pub fn parse_i32(value: String, flag: &str) -> (r: Result<i32, String>)
    ensures
        match i32_value(value@) {
            Some(n) => r == Ok::<i32, String>(n),
            None => r matches Err(e) && e@ == invalid_integer(flag@, value@),
        },
{
    let v = chars_of(value.as_str());
    match parse_signed_magnitude(v.as_slice()) {
        Some((negative, m)) => {
            if negative && m <= 2147483648 {
                let n: i64 = -(m as i64);
                return Ok(n as i32);
            } else if !negative && m <= 2147483647 {
                return Ok(m as i32);
            }
        },
        None => {},
    }
    Err(invalid_integer_message(flag, &value))
}

/// Reads a decimal `u32`.
pub fn parse_u32(value: String, flag: &str) -> (r: Result<u32, String>)
    ensures
        match u32_value(value@) {
            Some(n) => r == Ok::<u32, String>(n),
            None => r matches Err(e) && e@ == invalid_integer(flag@, value@),
        },
{
    let v = chars_of(value.as_str());
    match parse_u64_text(v.as_slice()) {
        Some(n) => if n <= 4294967295 {
            return Ok(n as u32);
        },
        None => {},
    }
    Err(invalid_integer_message(flag, &value))
}

/// Reads a decimal `u64`.
pub fn parse_u64(value: String, flag: &str) -> (r: Result<u64, String>)
    ensures
        match parse_u64_spec(value@) {
            Some(n) => r == Ok::<u64, String>(n),
            None => r matches Err(e) && e@ == invalid_integer(flag@, value@),
        },
{
    let v = chars_of(value.as_str());
    match parse_u64_text(v.as_slice()) {
        Some(n) => Ok(n),
        None => Err(invalid_integer_message(flag, &value)),
    }
}

/// Reads a decimal `usize`.
pub fn parse_usize(value: String, flag: &str) -> (r: Result<usize, String>)
    ensures
        match usize_value(value@) {
            Some(n) => r == Ok::<usize, String>(n),
            None => r matches Err(e) && e@ == invalid_integer(flag@, value@),
        },
{
    let v = chars_of(value.as_str());
    match parse_u64_text(v.as_slice()) {
        Some(n) => if n <= usize::MAX as u64 {
            return Ok(n as usize);
        },
        None => {},
    }
    Err(invalid_integer_message(flag, &value))
}

// ---------------------------------------------------------------------------
// Flags
// ---------------------------------------------------------------------------

/// A flag that takes the next argument as its value.
#[derive(Clone, Copy, Debug, PartialEq, Eq, Structural)]
pub enum ValueFlag {
    Monitor,
    Player,
    Size,
    Width,
    Height,
    Placement,
    OffsetX,
    OffsetY,
    Margin,
    BorderWidth,
    BorderColor,
    CornerRadius,
    Opacity,
    Transition,
    TransitionMs,
    PollSeconds,
    CacheMaxFiles,
    CacheMaxMb,
    Layer,
}

/// A flag that stands alone.
#[derive(Clone, Copy, Debug, PartialEq, Eq, Structural)]
pub enum Switch {
    ShowPaused,
    NoCache,
    InitConfig,
    ListMonitors,
    ListPlayers,
    Help,
}

pub open spec fn value_flag_named(a: Seq<char>) -> Option<ValueFlag> {
    if a == "--monitor"@ {
        Some(ValueFlag::Monitor)
    } else if a == "--player"@ {
        Some(ValueFlag::Player)
    } else if a == "--size"@ {
        Some(ValueFlag::Size)
    } else if a == "--width"@ {
        Some(ValueFlag::Width)
    } else if a == "--height"@ {
        Some(ValueFlag::Height)
    } else if a == "--placement"@ {
        Some(ValueFlag::Placement)
    } else if a == "--offset-x"@ {
        Some(ValueFlag::OffsetX)
    } else if a == "--offset-y"@ {
        Some(ValueFlag::OffsetY)
    } else if a == "--margin"@ {
        Some(ValueFlag::Margin)
    } else if a == "--border-width"@ {
        Some(ValueFlag::BorderWidth)
    } else if a == "--border-color"@ {
        Some(ValueFlag::BorderColor)
    } else if a == "--corner-radius"@ {
        Some(ValueFlag::CornerRadius)
    } else if a == "--opacity"@ {
        Some(ValueFlag::Opacity)
    } else if a == "--transition"@ {
        Some(ValueFlag::Transition)
    } else if a == "--transition-ms"@ {
        Some(ValueFlag::TransitionMs)
    } else if a == "--poll-seconds"@ {
        Some(ValueFlag::PollSeconds)
    } else if a == "--cache-max-files"@ {
        Some(ValueFlag::CacheMaxFiles)
    } else if a == "--cache-max-mb"@ {
        Some(ValueFlag::CacheMaxMb)
    } else if a == "--layer"@ {
        Some(ValueFlag::Layer)
    } else {
        None
    }
}

pub open spec fn switch_named(a: Seq<char>) -> Option<Switch> {
    if a == "--show-paused"@ {
        Some(Switch::ShowPaused)
    } else if a == "--no-cache"@ {
        Some(Switch::NoCache)
    } else if a == "--init-config"@ {
        Some(Switch::InitConfig)
    } else if a == "--list-monitors"@ {
        Some(Switch::ListMonitors)
    } else if a == "--list-players"@ {
        Some(Switch::ListPlayers)
    } else if a == "--help"@ {
        Some(Switch::Help)
    } else if a == "-h"@ {
        Some(Switch::Help)
    } else {
        None
    }
}

fn value_flag_of(a: &[char]) -> (r: Option<ValueFlag>)
    ensures
        r == value_flag_named(a@),
{
    if chars_equal_str(a, "--monitor") {
        Some(ValueFlag::Monitor)
    } else if chars_equal_str(a, "--player") {
        Some(ValueFlag::Player)
    } else if chars_equal_str(a, "--size") {
        Some(ValueFlag::Size)
    } else if chars_equal_str(a, "--width") {
        Some(ValueFlag::Width)
    } else if chars_equal_str(a, "--height") {
        Some(ValueFlag::Height)
    } else if chars_equal_str(a, "--placement") {
        Some(ValueFlag::Placement)
    } else if chars_equal_str(a, "--offset-x") {
        Some(ValueFlag::OffsetX)
    } else if chars_equal_str(a, "--offset-y") {
        Some(ValueFlag::OffsetY)
    } else if chars_equal_str(a, "--margin") {
        Some(ValueFlag::Margin)
    } else if chars_equal_str(a, "--border-width") {
        Some(ValueFlag::BorderWidth)
    } else if chars_equal_str(a, "--border-color") {
        Some(ValueFlag::BorderColor)
    } else if chars_equal_str(a, "--corner-radius") {
        Some(ValueFlag::CornerRadius)
    } else if chars_equal_str(a, "--opacity") {
        Some(ValueFlag::Opacity)
    } else if chars_equal_str(a, "--transition") {
        Some(ValueFlag::Transition)
    } else if chars_equal_str(a, "--transition-ms") {
        Some(ValueFlag::TransitionMs)
    } else if chars_equal_str(a, "--poll-seconds") {
        Some(ValueFlag::PollSeconds)
    } else if chars_equal_str(a, "--cache-max-files") {
        Some(ValueFlag::CacheMaxFiles)
    } else if chars_equal_str(a, "--cache-max-mb") {
        Some(ValueFlag::CacheMaxMb)
    } else if chars_equal_str(a, "--layer") {
        Some(ValueFlag::Layer)
    } else {
        None
    }
}

fn switch_of(a: &[char]) -> (r: Option<Switch>)
    ensures
        r == switch_named(a@),
{
    if chars_equal_str(a, "--show-paused") {
        Some(Switch::ShowPaused)
    } else if chars_equal_str(a, "--no-cache") {
        Some(Switch::NoCache)
    } else if chars_equal_str(a, "--init-config") {
        Some(Switch::InitConfig)
    } else if chars_equal_str(a, "--list-monitors") {
        Some(Switch::ListMonitors)
    } else if chars_equal_str(a, "--list-players") {
        Some(Switch::ListPlayers)
    } else if chars_equal_str(a, "--help") {
        Some(Switch::Help)
    } else if chars_equal_str(a, "-h") {
        Some(Switch::Help)
    } else {
        None
    }
}

pub open spec fn opacity_error(float: FloatArg, value: Seq<char>) -> Seq<char> {
    match float {
        FloatArg::NotANumber => "invalid number for --opacity: "@ + value,
        _ => "unsupported --opacity value '"@ + value
            + "', expected a number between 0.0 and 1.0"@,
    }
}

/// The settings after a value flag, or why its value is refused.
pub open spec fn apply_value_spec(flag: ValueFlag, value: String, float: FloatArg, c: Config) -> Result<
    Config,
    Seq<char>,
> {
    match flag {
        ValueFlag::Monitor => Ok(Config { monitor_selector: value, ..c }),
        ValueFlag::Player => Ok(Config { player: value, ..c }),
        ValueFlag::Size => match i32_value(value@) {
            Some(n) => Ok(Config { width: n, height: n, ..c }),
            None => Err(invalid_integer("--size"@, value@)),
        },
        ValueFlag::Width => match i32_value(value@) {
            Some(n) => Ok(Config { width: n, ..c }),
            None => Err(invalid_integer("--width"@, value@)),
        },
        ValueFlag::Height => match i32_value(value@) {
            Some(n) => Ok(Config { height: n, ..c }),
            None => Err(invalid_integer("--height"@, value@)),
        },
        ValueFlag::Placement => match placement_named(lower_text(value@)) {
            Some(p) => Ok(Config { placement: p, ..c }),
            None => Err(
                "unsupported --placement value '"@ + lower_text(value@)
                    + "', expected one of: top-left, top, top-right, left, center, right, bottom-left, bottom, bottom-right"@,
            ),
        },
        ValueFlag::OffsetX => match i32_value(value@) {
            Some(n) => Ok(Config { offset_x: n, ..c }),
            None => Err(invalid_integer("--offset-x"@, value@)),
        },
        ValueFlag::OffsetY => match i32_value(value@) {
            Some(n) => Ok(Config { offset_y: n, ..c }),
            None => Err(invalid_integer("--offset-y"@, value@)),
        },
        ValueFlag::Margin => match i32_value(value@) {
            Some(n) => Ok(Config { offset_x: n, offset_y: n, ..c }),
            None => Err(invalid_integer("--margin"@, value@)),
        },
        ValueFlag::BorderWidth => match i32_value(value@) {
            Some(n) => Ok(Config { border_width: n, ..c }),
            None => Err(invalid_integer("--border-width"@, value@)),
        },
        ValueFlag::BorderColor => Ok(Config { border_color: value, ..c }),
        ValueFlag::CornerRadius => match i32_value(value@) {
            Some(n) => Ok(Config { corner_radius: n, ..c }),
            None => Err(invalid_integer("--corner-radius"@, value@)),
        },
        ValueFlag::Opacity => match float {
            FloatArg::InUnitRange(bits) => Ok(Config { opacity_bits: bits, ..c }),
            _ => Err(opacity_error(float, value@)),
        },
        ValueFlag::Transition => match transition_named(lower_text(value@)) {
            Some(t) => Ok(Config { transition: t, ..c }),
            None => Err(
                "unsupported --transition value '"@ + lower_text(value@)
                    + "', expected one of: none, fade, flip, hinge, slide, cover"@,
            ),
        },
        ValueFlag::TransitionMs => match u32_value(value@) {
            Some(n) => Ok(Config { transition_ms: n, ..c }),
            None => Err(invalid_integer("--transition-ms"@, value@)),
        },
        ValueFlag::PollSeconds => match u32_value(value@) {
            Some(n) => Ok(Config { poll_seconds: n, ..c }),
            None => Err(invalid_integer("--poll-seconds"@, value@)),
        },
        ValueFlag::CacheMaxFiles => match usize_value(value@) {
            Some(n) => Ok(Config { cache_max_files: n, ..c }),
            None => Err(invalid_integer("--cache-max-files"@, value@)),
        },
        ValueFlag::CacheMaxMb => match parse_u64_spec(value@) {
            Some(n) => Ok(Config { cache_max_bytes: sat_mul(n as nat, 1024 * 1024) as u64, ..c }),
            None => Err(invalid_integer("--cache-max-mb"@, value@)),
        },
        ValueFlag::Layer => match shell_layer_named(value@) {
            Some(l) => Ok(Config { layer: l, ..c }),
            None => Err(
                "unsupported --layer value '"@ + value@ + "', expected background or bottom"@,
            ),
        },
    }
}

/// Where reading the arguments ends up.
pub enum ArgScan {
    Help,
    Failed(Seq<char>),
    /// The settings, and whether `--init-config`, `--list-monitors` and
    /// `--list-players` were given.
    Finished(Config, bool, bool, bool),
}

/// Reads the arguments from `i` on, left to right; `--help` ends the reading
/// at once, and so does the first refused argument.
pub open spec fn scan_args(
    args: Seq<String>,
    floats: Seq<FloatArg>,
    i: int,
    c: Config,
    init: bool,
    monitors: bool,
    players: bool,
) -> ArgScan
    decreases args.len() - i,
{
    if i < 0 || i >= args.len() {
        ArgScan::Finished(c, init, monitors, players)
    } else {
        let a = args[i]@;
        match value_flag_named(a) {
            Some(f) => if i + 1 < args.len() {
                match apply_value_spec(f, args[i + 1], floats[i + 1], c) {
                    Ok(next) => scan_args(args, floats, i + 2, next, init, monitors, players),
                    Err(e) => ArgScan::Failed(e),
                }
            } else {
                ArgScan::Failed("missing value for "@ + a)
            },
            None => match switch_named(a) {
                Some(Switch::Help) => ArgScan::Help,
                Some(Switch::ShowPaused) => scan_args(
                    args,
                    floats,
                    i + 1,
                    Config { show_paused: true, ..c },
                    init,
                    monitors,
                    players,
                ),
                Some(Switch::NoCache) => scan_args(
                    args,
                    floats,
                    i + 1,
                    Config { cache_enabled: false, ..c },
                    init,
                    monitors,
                    players,
                ),
                Some(Switch::InitConfig) => scan_args(
                    args,
                    floats,
                    i + 1,
                    c,
                    true,
                    monitors,
                    players,
                ),
                Some(Switch::ListMonitors) => scan_args(args, floats, i + 1, c, init, true, players),
                Some(Switch::ListPlayers) => scan_args(args, floats, i + 1, c, init, monitors, true),
                None => ArgScan::Failed("unknown argument: "@ + a),
            },
        }
    }
}

fn apply_value(flag: ValueFlag, value: String, float: FloatArg, config: &mut Config) -> (r: Result<
    (),
    String,
>)
    ensures
        match apply_value_spec(flag, value, float, *old(config)) {
            Ok(c) => r is Ok && *final(config) == c,
            Err(e) => r matches Err(m) && m@ == e,
        },
{
    match flag {
        ValueFlag::Monitor => {
            config.monitor_selector = value;
        },
        ValueFlag::Player => {
            config.player = value;
        },
        ValueFlag::Size => {
            let size = parse_i32(value, "--size")?;
            config.width = size;
            config.height = size;
        },
        ValueFlag::Width => {
            config.width = parse_i32(value, "--width")?;
        },
        ValueFlag::Height => {
            config.height = parse_i32(value, "--height")?;
        },
        ValueFlag::Placement => {
            config.placement = Placement::parse(value.as_str())?;
        },
        ValueFlag::OffsetX => {
            config.offset_x = parse_i32(value, "--offset-x")?;
        },
        ValueFlag::OffsetY => {
            config.offset_y = parse_i32(value, "--offset-y")?;
        },
        ValueFlag::Margin => {
            let margin = parse_i32(value, "--margin")?;
            config.offset_x = margin;
            config.offset_y = margin;
        },
        ValueFlag::BorderWidth => {
            config.border_width = parse_i32(value, "--border-width")?;
        },
        ValueFlag::BorderColor => {
            config.border_color = value;
        },
        ValueFlag::CornerRadius => {
            config.corner_radius = parse_i32(value, "--corner-radius")?;
        },
        ValueFlag::Opacity => {
            match float {
                FloatArg::InUnitRange(bits) => {
                    config.opacity_bits = bits;
                },
                FloatArg::NotANumber => {
                    return Err(message_end("invalid number for --opacity: ", value.as_str()));
                },
                FloatArg::OutOfUnitRange => {
                    return Err(
                        message_str(
                            "unsupported --opacity value '",
                            value.as_str(),
                            "', expected a number between 0.0 and 1.0",
                        ),
                    );
                },
            }
        },
        ValueFlag::Transition => {
            config.transition = Transition::parse(value.as_str())?;
        },
        ValueFlag::TransitionMs => {
            config.transition_ms = parse_u32(value, "--transition-ms")?;
        },
        ValueFlag::PollSeconds => {
            config.poll_seconds = parse_u32(value, "--poll-seconds")?;
        },
        ValueFlag::CacheMaxFiles => {
            config.cache_max_files = parse_usize(value, "--cache-max-files")?;
        },
        ValueFlag::CacheMaxMb => {
            let mb = parse_u64(value, "--cache-max-mb")?;
            config.cache_max_bytes = saturating_mul(mb, 1024 * 1024);
        },
        ValueFlag::Layer => {
            config.layer = ShellLayer::parse(value.as_str())?;
        },
    }
    Ok(())
}

/// The message for settings that `Config::validate` refuses.
pub open spec fn validation_message(c: Config) -> Seq<char> {
    "--transition "@ + transition_label(c.transition)
        + " requires a placement adjacent to a screen edge, got '"@ + placement_label(c.placement)
        + "'"@
}

impl StartupAction {
    /// Reads the command-line arguments (without the program name) on top of
    /// the settings `config`; `floats` tells, for each argument, how it
    /// reads as a number, which `--opacity` needs.
    pub fn from_args(args: &Vec<String>, floats: &Vec<FloatArg>, settings: Config) -> (r: Result<
        Self,
        String,
    >)
        requires
            floats@.len() == args@.len(),
        ensures
            match scan_args(args@, floats@, 0, settings, false, false, false) {
                ArgScan::Help => r matches Ok(StartupAction::Help),
                ArgScan::Failed(e) => r matches Err(m) && m@ == e,
                ArgScan::Finished(c, init, monitors, players) => if init {
                    r matches Ok(StartupAction::InitConfig)
                } else if monitors {
                    r matches Ok(StartupAction::ListMonitors)
                } else if players {
                    r matches Ok(StartupAction::ListPlayers)
                } else if is_edge_transition(c.transition) && c.placement == Placement::Center {
                    r matches Err(m) && m@ == validation_message(c)
                } else {
                    r matches Ok(StartupAction::Run(b)) && *b == c
                },
            },
    {
        let ghost initial = settings;
        let mut config = settings;
        let mut init_config = false;
        let mut list_monitors = false;
        let mut list_players = false;
        let mut i: usize = 0;
        while i < args.len()
            invariant
                floats@.len() == args@.len(),
                i <= args@.len(),
                initial == settings,
                scan_args(args@, floats@, 0, initial, false, false, false) == scan_args(
                    args@,
                    floats@,
                    i as int,
                    config,
                    init_config,
                    list_monitors,
                    list_players,
                ),
            decreases args@.len() - i,
        {
            let a = chars_of(args[i].as_str());
            match value_flag_of(a.as_slice()) {
                Some(flag) => {
                    let mut next = i + 1;
                    let value = match next_arg(args, &mut next, args[i].as_str()) {
                        Ok(v) => v,
                        Err(e) => {
                            assert(scan_args(
                                args@,
                                floats@,
                                i as int,
                                config,
                                init_config,
                                list_monitors,
                                list_players,
                            ) == ArgScan::Failed("missing value for "@ + args@[i as int]@));
                            return Err(e);
                        },
                    };
                    let float = floats[i + 1];
                    apply_value(flag, value, float, &mut config)?;
                    i = i + 2;
                },
                None => match switch_of(a.as_slice()) {
                    Some(Switch::Help) => {
                        return Ok(StartupAction::Help);
                    },
                    Some(Switch::ShowPaused) => {
                        config.show_paused = true;
                        i = i + 1;
                    },
                    Some(Switch::NoCache) => {
                        config.cache_enabled = false;
                        i = i + 1;
                    },
                    Some(Switch::InitConfig) => {
                        init_config = true;
                        i = i + 1;
                    },
                    Some(Switch::ListMonitors) => {
                        list_monitors = true;
                        i = i + 1;
                    },
                    Some(Switch::ListPlayers) => {
                        list_players = true;
                        i = i + 1;
                    },
                    None => {
                        return Err(message_end("unknown argument: ", args[i].as_str()));
                    },
                },
            }
        }
        if init_config {
            return Ok(StartupAction::InitConfig);
        }
        if list_monitors {
            return Ok(StartupAction::ListMonitors);
        }
        if list_players {
            return Ok(StartupAction::ListPlayers);
        }
        config.validate()?;
        Ok(StartupAction::Run(Box::new(config)))
    }
}

/// Every flag answers to its documented name: `--monitor`, `--player`,
/// `--size`, `--width`, `--height`, `--placement`, `--offset-x`,
/// `--offset-y`, `--margin`, `--border-width`, `--border-color`,
/// `--corner-radius`, `--opacity`, `--transition`, `--transition-ms`,
/// `--poll-seconds`, `--cache-max-files`, `--cache-max-mb` and `--layer`
/// take a value; `--show-paused`, `--no-cache`, `--init-config`,
/// `--list-monitors`, `--list-players`, and `--help` or `-h`, stand alone.
pub proof fn law_flags_answer_to_their_names()
    ensures
        value_flag_named("--monitor"@) == Some(ValueFlag::Monitor),
        value_flag_named("--player"@) == Some(ValueFlag::Player),
        value_flag_named("--size"@) == Some(ValueFlag::Size),
        value_flag_named("--width"@) == Some(ValueFlag::Width),
        value_flag_named("--height"@) == Some(ValueFlag::Height),
        value_flag_named("--placement"@) == Some(ValueFlag::Placement),
        value_flag_named("--offset-x"@) == Some(ValueFlag::OffsetX),
        value_flag_named("--offset-y"@) == Some(ValueFlag::OffsetY),
        value_flag_named("--margin"@) == Some(ValueFlag::Margin),
        value_flag_named("--border-width"@) == Some(ValueFlag::BorderWidth),
        value_flag_named("--border-color"@) == Some(ValueFlag::BorderColor),
        value_flag_named("--corner-radius"@) == Some(ValueFlag::CornerRadius),
        value_flag_named("--opacity"@) == Some(ValueFlag::Opacity),
        value_flag_named("--transition"@) == Some(ValueFlag::Transition),
        value_flag_named("--transition-ms"@) == Some(ValueFlag::TransitionMs),
        value_flag_named("--poll-seconds"@) == Some(ValueFlag::PollSeconds),
        value_flag_named("--cache-max-files"@) == Some(ValueFlag::CacheMaxFiles),
        value_flag_named("--cache-max-mb"@) == Some(ValueFlag::CacheMaxMb),
        value_flag_named("--layer"@) == Some(ValueFlag::Layer),
        value_flag_named("--show-paused"@) is None && switch_named("--show-paused"@) == Some(Switch::ShowPaused),
        value_flag_named("--no-cache"@) is None && switch_named("--no-cache"@) == Some(Switch::NoCache),
        value_flag_named("--init-config"@) is None && switch_named("--init-config"@) == Some(Switch::InitConfig),
        value_flag_named("--list-monitors"@) is None && switch_named("--list-monitors"@) == Some(Switch::ListMonitors),
        value_flag_named("--list-players"@) is None && switch_named("--list-players"@) == Some(Switch::ListPlayers),
        value_flag_named("--help"@) is None && switch_named("--help"@) == Some(Switch::Help),
        value_flag_named("-h"@) is None && switch_named("-h"@) == Some(Switch::Help),
{
    reveal_strlit("--monitor");
    reveal_strlit("--player");
    reveal_strlit("--size");
    reveal_strlit("--width");
    reveal_strlit("--height");
    reveal_strlit("--placement");
    reveal_strlit("--offset-x");
    reveal_strlit("--offset-y");
    reveal_strlit("--margin");
    reveal_strlit("--border-width");
    reveal_strlit("--border-color");
    reveal_strlit("--corner-radius");
    reveal_strlit("--opacity");
    reveal_strlit("--transition");
    reveal_strlit("--transition-ms");
    reveal_strlit("--poll-seconds");
    reveal_strlit("--cache-max-files");
    reveal_strlit("--cache-max-mb");
    reveal_strlit("--layer");
    reveal_strlit("--show-paused");
    reveal_strlit("--no-cache");
    reveal_strlit("--init-config");
    reveal_strlit("--list-monitors");
    reveal_strlit("--list-players");
    reveal_strlit("--help");
    reveal_strlit("-h");
    assert("--monitor"@.len() == 9);
    assert("--player"@.len() == 8);
    assert("--size"@.len() == 6);
    assert("--width"@.len() == 7);
    assert("--height"@.len() == 8);
    assert("--placement"@.len() == 11);
    assert("--offset-x"@.len() == 10);
    assert("--offset-y"@.len() == 10);
    assert("--margin"@.len() == 8);
    assert("--border-width"@.len() == 14);
    assert("--border-color"@.len() == 14);
    assert("--corner-radius"@.len() == 15);
    assert("--opacity"@.len() == 9);
    assert("--transition"@.len() == 12);
    assert("--transition-ms"@.len() == 15);
    assert("--poll-seconds"@.len() == 14);
    assert("--cache-max-files"@.len() == 17);
    assert("--cache-max-mb"@.len() == 14);
    assert("--layer"@.len() == 7);
    assert("--show-paused"@.len() == 13);
    assert("--no-cache"@.len() == 10);
    assert("--init-config"@.len() == 13);
    assert("--list-monitors"@.len() == 15);
    assert("--list-players"@.len() == 14);
    assert("--help"@.len() == 6);
    assert("-h"@.len() == 2);
    assert("--player"@ != "--monitor"@);
    assert("--size"@ != "--monitor"@);
    assert("--size"@ != "--player"@);
    assert("--width"@ != "--monitor"@);
    assert("--width"@ != "--player"@);
    assert("--width"@ != "--size"@);
    assert("--height"@ != "--monitor"@);
    assert("--height"@ != "--player"@) by {
        assert("--height"@[2] != "--player"@[2]);
    }
    assert("--height"@ != "--size"@);
    assert("--height"@ != "--width"@);
    assert("--placement"@ != "--monitor"@);
    assert("--placement"@ != "--player"@);
    assert("--placement"@ != "--size"@);
    assert("--placement"@ != "--width"@);
    assert("--placement"@ != "--height"@);
    assert("--offset-x"@ != "--monitor"@);
    assert("--offset-x"@ != "--player"@);
    assert("--offset-x"@ != "--size"@);
    assert("--offset-x"@ != "--width"@);
    assert("--offset-x"@ != "--height"@);
    assert("--offset-x"@ != "--placement"@);
    assert("--offset-y"@ != "--monitor"@);
    assert("--offset-y"@ != "--player"@);
    assert("--offset-y"@ != "--size"@);
    assert("--offset-y"@ != "--width"@);
    assert("--offset-y"@ != "--height"@);
    assert("--offset-y"@ != "--placement"@);
    assert("--offset-y"@ != "--offset-x"@) by {
        assert("--offset-y"@[9] != "--offset-x"@[9]);
    }
    assert("--margin"@ != "--monitor"@);
    assert("--margin"@ != "--player"@) by {
        assert("--margin"@[2] != "--player"@[2]);
    }
    assert("--margin"@ != "--size"@);
    assert("--margin"@ != "--width"@);
    assert("--margin"@ != "--height"@) by {
        assert("--margin"@[2] != "--height"@[2]);
    }
    assert("--margin"@ != "--placement"@);
    assert("--margin"@ != "--offset-x"@);
    assert("--margin"@ != "--offset-y"@);
    assert("--border-width"@ != "--monitor"@);
    assert("--border-width"@ != "--player"@);
    assert("--border-width"@ != "--size"@);
    assert("--border-width"@ != "--width"@);
    assert("--border-width"@ != "--height"@);
    assert("--border-width"@ != "--placement"@);
    assert("--border-width"@ != "--offset-x"@);
    assert("--border-width"@ != "--offset-y"@);
    assert("--border-width"@ != "--margin"@);
    assert("--border-color"@ != "--monitor"@);
    assert("--border-color"@ != "--player"@);
    assert("--border-color"@ != "--size"@);
    assert("--border-color"@ != "--width"@);
    assert("--border-color"@ != "--height"@);
    assert("--border-color"@ != "--placement"@);
    assert("--border-color"@ != "--offset-x"@);
    assert("--border-color"@ != "--offset-y"@);
    assert("--border-color"@ != "--margin"@);
    assert("--border-color"@ != "--border-width"@) by {
        assert("--border-color"@[9] != "--border-width"@[9]);
    }
    assert("--corner-radius"@ != "--monitor"@);
    assert("--corner-radius"@ != "--player"@);
    assert("--corner-radius"@ != "--size"@);
    assert("--corner-radius"@ != "--width"@);
    assert("--corner-radius"@ != "--height"@);
    assert("--corner-radius"@ != "--placement"@);
    assert("--corner-radius"@ != "--offset-x"@);
    assert("--corner-radius"@ != "--offset-y"@);
    assert("--corner-radius"@ != "--margin"@);
    assert("--corner-radius"@ != "--border-width"@);
    assert("--corner-radius"@ != "--border-color"@);
    assert("--opacity"@ != "--monitor"@) by {
        assert("--opacity"@[2] != "--monitor"@[2]);
    }
    assert("--opacity"@ != "--player"@);
    assert("--opacity"@ != "--size"@);
    assert("--opacity"@ != "--width"@);
    assert("--opacity"@ != "--height"@);
    assert("--opacity"@ != "--placement"@);
    assert("--opacity"@ != "--offset-x"@);
    assert("--opacity"@ != "--offset-y"@);
    assert("--opacity"@ != "--margin"@);
    assert("--opacity"@ != "--border-width"@);
    assert("--opacity"@ != "--border-color"@);
    assert("--opacity"@ != "--corner-radius"@);
    assert("--transition"@ != "--monitor"@);
    assert("--transition"@ != "--player"@);
    assert("--transition"@ != "--size"@);
    assert("--transition"@ != "--width"@);
    assert("--transition"@ != "--height"@);
    assert("--transition"@ != "--placement"@);
    assert("--transition"@ != "--offset-x"@);
    assert("--transition"@ != "--offset-y"@);
    assert("--transition"@ != "--margin"@);
    assert("--transition"@ != "--border-width"@);
    assert("--transition"@ != "--border-color"@);
    assert("--transition"@ != "--corner-radius"@);
    assert("--transition"@ != "--opacity"@);
    assert("--transition-ms"@ != "--monitor"@);
    assert("--transition-ms"@ != "--player"@);
    assert("--transition-ms"@ != "--size"@);
    assert("--transition-ms"@ != "--width"@);
    assert("--transition-ms"@ != "--height"@);
    assert("--transition-ms"@ != "--placement"@);
    assert("--transition-ms"@ != "--offset-x"@);
    assert("--transition-ms"@ != "--offset-y"@);
    assert("--transition-ms"@ != "--margin"@);
    assert("--transition-ms"@ != "--border-width"@);
    assert("--transition-ms"@ != "--border-color"@);
    assert("--transition-ms"@ != "--corner-radius"@) by {
        assert("--transition-ms"@[2] != "--corner-radius"@[2]);
    }
    assert("--transition-ms"@ != "--opacity"@);
    assert("--transition-ms"@ != "--transition"@);
    assert("--poll-seconds"@ != "--monitor"@);
    assert("--poll-seconds"@ != "--player"@);
    assert("--poll-seconds"@ != "--size"@);
    assert("--poll-seconds"@ != "--width"@);
    assert("--poll-seconds"@ != "--height"@);
    assert("--poll-seconds"@ != "--placement"@);
    assert("--poll-seconds"@ != "--offset-x"@);
    assert("--poll-seconds"@ != "--offset-y"@);
    assert("--poll-seconds"@ != "--margin"@);
    assert("--poll-seconds"@ != "--border-width"@) by {
        assert("--poll-seconds"@[2] != "--border-width"@[2]);
    }
    assert("--poll-seconds"@ != "--border-color"@) by {
        assert("--poll-seconds"@[2] != "--border-color"@[2]);
    }
    assert("--poll-seconds"@ != "--corner-radius"@);
    assert("--poll-seconds"@ != "--opacity"@);
    assert("--poll-seconds"@ != "--transition"@);
    assert("--poll-seconds"@ != "--transition-ms"@);
    assert("--cache-max-files"@ != "--monitor"@);
    assert("--cache-max-files"@ != "--player"@);
    assert("--cache-max-files"@ != "--size"@);
    assert("--cache-max-files"@ != "--width"@);
    assert("--cache-max-files"@ != "--height"@);
    assert("--cache-max-files"@ != "--placement"@);
    assert("--cache-max-files"@ != "--offset-x"@);
    assert("--cache-max-files"@ != "--offset-y"@);
    assert("--cache-max-files"@ != "--margin"@);
    assert("--cache-max-files"@ != "--border-width"@);
    assert("--cache-max-files"@ != "--border-color"@);
    assert("--cache-max-files"@ != "--corner-radius"@);
    assert("--cache-max-files"@ != "--opacity"@);
    assert("--cache-max-files"@ != "--transition"@);
    assert("--cache-max-files"@ != "--transition-ms"@);
    assert("--cache-max-files"@ != "--poll-seconds"@);
    assert("--cache-max-mb"@ != "--monitor"@);
    assert("--cache-max-mb"@ != "--player"@);
    assert("--cache-max-mb"@ != "--size"@);
    assert("--cache-max-mb"@ != "--width"@);
    assert("--cache-max-mb"@ != "--height"@);
    assert("--cache-max-mb"@ != "--placement"@);
    assert("--cache-max-mb"@ != "--offset-x"@);
    assert("--cache-max-mb"@ != "--offset-y"@);
    assert("--cache-max-mb"@ != "--margin"@);
    assert("--cache-max-mb"@ != "--border-width"@) by {
        assert("--cache-max-mb"@[2] != "--border-width"@[2]);
    }
    assert("--cache-max-mb"@ != "--border-color"@) by {
        assert("--cache-max-mb"@[2] != "--border-color"@[2]);
    }
    assert("--cache-max-mb"@ != "--corner-radius"@);
    assert("--cache-max-mb"@ != "--opacity"@);
    assert("--cache-max-mb"@ != "--transition"@);
    assert("--cache-max-mb"@ != "--transition-ms"@);
    assert("--cache-max-mb"@ != "--poll-seconds"@) by {
        assert("--cache-max-mb"@[2] != "--poll-seconds"@[2]);
    }
    assert("--cache-max-mb"@ != "--cache-max-files"@);
    assert("--layer"@ != "--monitor"@);
    assert("--layer"@ != "--player"@);
    assert("--layer"@ != "--size"@);
    assert("--layer"@ != "--width"@) by {
        assert("--layer"@[2] != "--width"@[2]);
    }
    assert("--layer"@ != "--height"@);
    assert("--layer"@ != "--placement"@);
    assert("--layer"@ != "--offset-x"@);
    assert("--layer"@ != "--offset-y"@);
    assert("--layer"@ != "--margin"@);
    assert("--layer"@ != "--border-width"@);
    assert("--layer"@ != "--border-color"@);
    assert("--layer"@ != "--corner-radius"@);
    assert("--layer"@ != "--opacity"@);
    assert("--layer"@ != "--transition"@);
    assert("--layer"@ != "--transition-ms"@);
    assert("--layer"@ != "--poll-seconds"@);
    assert("--layer"@ != "--cache-max-files"@);
    assert("--layer"@ != "--cache-max-mb"@);
    assert("--show-paused"@ != "--monitor"@);
    assert("--show-paused"@ != "--player"@);
    assert("--show-paused"@ != "--size"@);
    assert("--show-paused"@ != "--width"@);
    assert("--show-paused"@ != "--height"@);
    assert("--show-paused"@ != "--placement"@);
    assert("--show-paused"@ != "--offset-x"@);
    assert("--show-paused"@ != "--offset-y"@);
    assert("--show-paused"@ != "--margin"@);
    assert("--show-paused"@ != "--border-width"@);
    assert("--show-paused"@ != "--border-color"@);
    assert("--show-paused"@ != "--corner-radius"@);
    assert("--show-paused"@ != "--opacity"@);
    assert("--show-paused"@ != "--transition"@);
    assert("--show-paused"@ != "--transition-ms"@);
    assert("--show-paused"@ != "--poll-seconds"@);
    assert("--show-paused"@ != "--cache-max-files"@);
    assert("--show-paused"@ != "--cache-max-mb"@);
    assert("--show-paused"@ != "--layer"@);
    assert("--no-cache"@ != "--monitor"@);
    assert("--no-cache"@ != "--player"@);
    assert("--no-cache"@ != "--size"@);
    assert("--no-cache"@ != "--width"@);
    assert("--no-cache"@ != "--height"@);
    assert("--no-cache"@ != "--placement"@);
    assert("--no-cache"@ != "--offset-x"@) by {
        assert("--no-cache"@[2] != "--offset-x"@[2]);
    }
    assert("--no-cache"@ != "--offset-y"@) by {
        assert("--no-cache"@[2] != "--offset-y"@[2]);
    }
    assert("--no-cache"@ != "--margin"@);
    assert("--no-cache"@ != "--border-width"@);
    assert("--no-cache"@ != "--border-color"@);
    assert("--no-cache"@ != "--corner-radius"@);
    assert("--no-cache"@ != "--opacity"@);
    assert("--no-cache"@ != "--transition"@);
    assert("--no-cache"@ != "--transition-ms"@);
    assert("--no-cache"@ != "--poll-seconds"@);
    assert("--no-cache"@ != "--cache-max-files"@);
    assert("--no-cache"@ != "--cache-max-mb"@);
    assert("--no-cache"@ != "--layer"@);
    assert("--no-cache"@ != "--show-paused"@);
    assert("--init-config"@ != "--monitor"@);
    assert("--init-config"@ != "--player"@);
    assert("--init-config"@ != "--size"@);
    assert("--init-config"@ != "--width"@);
    assert("--init-config"@ != "--height"@);
    assert("--init-config"@ != "--placement"@);
    assert("--init-config"@ != "--offset-x"@);
    assert("--init-config"@ != "--offset-y"@);
    assert("--init-config"@ != "--margin"@);
    assert("--init-config"@ != "--border-width"@);
    assert("--init-config"@ != "--border-color"@);
    assert("--init-config"@ != "--corner-radius"@);
    assert("--init-config"@ != "--opacity"@);
    assert("--init-config"@ != "--transition"@);
    assert("--init-config"@ != "--transition-ms"@);
    assert("--init-config"@ != "--poll-seconds"@);
    assert("--init-config"@ != "--cache-max-files"@);
    assert("--init-config"@ != "--cache-max-mb"@);
    assert("--init-config"@ != "--layer"@);
    assert("--init-config"@ != "--show-paused"@) by {
        assert("--init-config"@[2] != "--show-paused"@[2]);
    }
    assert("--init-config"@ != "--no-cache"@);
    assert("--list-monitors"@ != "--monitor"@);
    assert("--list-monitors"@ != "--player"@);
    assert("--list-monitors"@ != "--size"@);
    assert("--list-monitors"@ != "--width"@);
    assert("--list-monitors"@ != "--height"@);
    assert("--list-monitors"@ != "--placement"@);
    assert("--list-monitors"@ != "--offset-x"@);
    assert("--list-monitors"@ != "--offset-y"@);
    assert("--list-monitors"@ != "--margin"@);
    assert("--list-monitors"@ != "--border-width"@);
    assert("--list-monitors"@ != "--border-color"@);
    assert("--list-monitors"@ != "--corner-radius"@) by {
        assert("--list-monitors"@[2] != "--corner-radius"@[2]);
    }
    assert("--list-monitors"@ != "--opacity"@);
    assert("--list-monitors"@ != "--transition"@);
    assert("--list-monitors"@ != "--transition-ms"@) by {
        assert("--list-monitors"@[2] != "--transition-ms"@[2]);
    }
    assert("--list-monitors"@ != "--poll-seconds"@);
    assert("--list-monitors"@ != "--cache-max-files"@);
    assert("--list-monitors"@ != "--cache-max-mb"@);
    assert("--list-monitors"@ != "--layer"@);
    assert("--list-monitors"@ != "--show-paused"@);
    assert("--list-monitors"@ != "--no-cache"@);
    assert("--list-monitors"@ != "--init-config"@);
    assert("--list-players"@ != "--monitor"@);
    assert("--list-players"@ != "--player"@);
    assert("--list-players"@ != "--size"@);
    assert("--list-players"@ != "--width"@);
    assert("--list-players"@ != "--height"@);
    assert("--list-players"@ != "--placement"@);
    assert("--list-players"@ != "--offset-x"@);
    assert("--list-players"@ != "--offset-y"@);
    assert("--list-players"@ != "--margin"@);
    assert("--list-players"@ != "--border-width"@) by {
        assert("--list-players"@[2] != "--border-width"@[2]);
    }
    assert("--list-players"@ != "--border-color"@) by {
        assert("--list-players"@[2] != "--border-color"@[2]);
    }
    assert("--list-players"@ != "--corner-radius"@);
    assert("--list-players"@ != "--opacity"@);
    assert("--list-players"@ != "--transition"@);
    assert("--list-players"@ != "--transition-ms"@);
    assert("--list-players"@ != "--poll-seconds"@) by {
        assert("--list-players"@[2] != "--poll-seconds"@[2]);
    }
    assert("--list-players"@ != "--cache-max-files"@);
    assert("--list-players"@ != "--cache-max-mb"@) by {
        assert("--list-players"@[2] != "--cache-max-mb"@[2]);
    }
    assert("--list-players"@ != "--layer"@);
    assert("--list-players"@ != "--show-paused"@);
    assert("--list-players"@ != "--no-cache"@);
    assert("--list-players"@ != "--init-config"@);
    assert("--list-players"@ != "--list-monitors"@);
    assert("--help"@ != "--monitor"@);
    assert("--help"@ != "--player"@);
    assert("--help"@ != "--size"@) by {
        assert("--help"@[2] != "--size"@[2]);
    }
    assert("--help"@ != "--width"@);
    assert("--help"@ != "--height"@);
    assert("--help"@ != "--placement"@);
    assert("--help"@ != "--offset-x"@);
    assert("--help"@ != "--offset-y"@);
    assert("--help"@ != "--margin"@);
    assert("--help"@ != "--border-width"@);
    assert("--help"@ != "--border-color"@);
    assert("--help"@ != "--corner-radius"@);
    assert("--help"@ != "--opacity"@);
    assert("--help"@ != "--transition"@);
    assert("--help"@ != "--transition-ms"@);
    assert("--help"@ != "--poll-seconds"@);
    assert("--help"@ != "--cache-max-files"@);
    assert("--help"@ != "--cache-max-mb"@);
    assert("--help"@ != "--layer"@);
    assert("--help"@ != "--show-paused"@);
    assert("--help"@ != "--no-cache"@);
    assert("--help"@ != "--init-config"@);
    assert("--help"@ != "--list-monitors"@);
    assert("--help"@ != "--list-players"@);
    assert("-h"@ != "--monitor"@);
    assert("-h"@ != "--player"@);
    assert("-h"@ != "--size"@);
    assert("-h"@ != "--width"@);
    assert("-h"@ != "--height"@);
    assert("-h"@ != "--placement"@);
    assert("-h"@ != "--offset-x"@);
    assert("-h"@ != "--offset-y"@);
    assert("-h"@ != "--margin"@);
    assert("-h"@ != "--border-width"@);
    assert("-h"@ != "--border-color"@);
    assert("-h"@ != "--corner-radius"@);
    assert("-h"@ != "--opacity"@);
    assert("-h"@ != "--transition"@);
    assert("-h"@ != "--transition-ms"@);
    assert("-h"@ != "--poll-seconds"@);
    assert("-h"@ != "--cache-max-files"@);
    assert("-h"@ != "--cache-max-mb"@);
    assert("-h"@ != "--layer"@);
    assert("-h"@ != "--show-paused"@);
    assert("-h"@ != "--no-cache"@);
    assert("-h"@ != "--init-config"@);
    assert("-h"@ != "--list-monitors"@);
    assert("-h"@ != "--list-players"@);
    assert("-h"@ != "--help"@);
}

/// A flag with a value that reads sets the setting it names and nothing
/// else, and reading goes on after the value: `--size` sets the width and
/// the height, `--margin` both offsets, `--cache-max-mb` the byte limit (the
/// megabytes times 1024 * 1024, at most `u64::MAX`), `--opacity` the
/// opacity bits of its number when it lies in `0.0..=1.0`, and every other
/// flag the one setting of its name.
pub proof fn law_value_flag_sets_its_setting(
    args: Seq<String>,
    floats: Seq<FloatArg>,
    i: int,
    c: Config,
    init: bool,
    monitors: bool,
    players: bool,
)
    requires
        0 <= i,
        i + 1 < args.len(),
    ensures
        ({
            let v = args[i + 1];
            let here = scan_args(args, floats, i, c, init, monitors, players);
            let next = |d: Config| scan_args(args, floats, i + 2, d, init, monitors, players);
            &&& args[i]@ == "--monitor"@ ==> here == next(Config { monitor_selector: v, ..c })
            &&& args[i]@ == "--player"@ ==> here == next(Config { player: v, ..c })
            &&& args[i]@ == "--size"@ ==> (i32_value(v@) matches Some(n) ==> here == next(
                Config { width: n, height: n, ..c },
            ))
            &&& args[i]@ == "--width"@ ==> (i32_value(v@) matches Some(n) ==> here == next(
                Config { width: n, ..c },
            ))
            &&& args[i]@ == "--height"@ ==> (i32_value(v@) matches Some(n) ==> here == next(
                Config { height: n, ..c },
            ))
            &&& args[i]@ == "--placement"@ ==> (placement_named(lower_text(v@)) matches Some(n) ==> here == next(
                Config { placement: n, ..c },
            ))
            &&& args[i]@ == "--offset-x"@ ==> (i32_value(v@) matches Some(n) ==> here == next(
                Config { offset_x: n, ..c },
            ))
            &&& args[i]@ == "--offset-y"@ ==> (i32_value(v@) matches Some(n) ==> here == next(
                Config { offset_y: n, ..c },
            ))
            &&& args[i]@ == "--margin"@ ==> (i32_value(v@) matches Some(n) ==> here == next(
                Config { offset_x: n, offset_y: n, ..c },
            ))
            &&& args[i]@ == "--border-width"@ ==> (i32_value(v@) matches Some(n) ==> here == next(
                Config { border_width: n, ..c },
            ))
            &&& args[i]@ == "--border-color"@ ==> here == next(Config { border_color: v, ..c })
            &&& args[i]@ == "--corner-radius"@ ==> (i32_value(v@) matches Some(n) ==> here == next(
                Config { corner_radius: n, ..c },
            ))
            &&& args[i]@ == "--opacity"@ ==> (floats[i + 1] matches FloatArg::InUnitRange(n) ==> here == next(
                Config { opacity_bits: n, ..c },
            ))
            &&& args[i]@ == "--transition"@ ==> (transition_named(lower_text(v@)) matches Some(n) ==> here == next(
                Config { transition: n, ..c },
            ))
            &&& args[i]@ == "--transition-ms"@ ==> (u32_value(v@) matches Some(n) ==> here == next(
                Config { transition_ms: n, ..c },
            ))
            &&& args[i]@ == "--poll-seconds"@ ==> (u32_value(v@) matches Some(n) ==> here == next(
                Config { poll_seconds: n, ..c },
            ))
            &&& args[i]@ == "--cache-max-files"@ ==> (usize_value(v@) matches Some(n) ==> here == next(
                Config { cache_max_files: n, ..c },
            ))
            &&& args[i]@ == "--cache-max-mb"@ ==> (parse_u64_spec(v@) matches Some(n) ==> here == next(
                Config { cache_max_bytes: if n * 1048576 <= u64::MAX { (n * 1048576) as u64 } else { u64::MAX }, ..c },
            ))
            &&& args[i]@ == "--layer"@ ==> (shell_layer_named(v@) matches Some(n) ==> here == next(
                Config { layer: n, ..c },
            ))
        }),
{
    law_flags_answer_to_their_names();
}

/// A flag that stands alone does what its name says, and reading goes on
/// with the next argument: `--show-paused` keeps the artwork while paused,
/// `--no-cache` turns the cache off, `--init-config`, `--list-monitors` and
/// `--list-players` ask for those actions, and `--help` or `-h` ends the
/// reading with the help.
pub proof fn law_switch_does_what_it_names(
    args: Seq<String>,
    floats: Seq<FloatArg>,
    i: int,
    c: Config,
    init: bool,
    monitors: bool,
    players: bool,
)
    requires
        0 <= i < args.len(),
    ensures
        ({
            let here = scan_args(args, floats, i, c, init, monitors, players);
            &&& args[i]@ == "--show-paused"@ ==> here == scan_args(
                args,
                floats,
                i + 1,
                Config { show_paused: true, ..c },
                init,
                monitors,
                players,
            )
            &&& args[i]@ == "--no-cache"@ ==> here == scan_args(
                args,
                floats,
                i + 1,
                Config { cache_enabled: false, ..c },
                init,
                monitors,
                players,
            )
            &&& args[i]@ == "--init-config"@ ==> here == scan_args(args, floats, i + 1, c, true, monitors, players)
            &&& args[i]@ == "--list-monitors"@ ==> here == scan_args(args, floats, i + 1, c, init, true, players)
            &&& args[i]@ == "--list-players"@ ==> here == scan_args(args, floats, i + 1, c, init, monitors, true)
            &&& (args[i]@ == "--help"@ || args[i]@ == "-h"@) ==> here == ArgScan::Help
        }),
{
    law_flags_answer_to_their_names();
}

} // verus!
