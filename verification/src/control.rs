//! The commands that a second `covermint` process sends to the running one,
//! and their text on the control socket.
use vstd::prelude::*;
use crate::text::{chars_equal_str, chars_of, is_white_space, trim, trim_chars};

verus! {

#[derive(Clone, Copy, Debug, PartialEq, Eq, Structural)]
pub enum ControlCommand {
    On,
    Off,
    Toggle,
}

/// The text of a command on the socket.
pub open spec fn wire_text(command: ControlCommand) -> Seq<char> {
    match command {
        ControlCommand::On => "lyrics:on"@,
        ControlCommand::Off => "lyrics:off"@,
        ControlCommand::Toggle => "lyrics:toggle"@,
    }
}

/// The command whose text is exactly `s`, if any.
pub open spec fn wire_named(s: Seq<char>) -> Option<ControlCommand> {
    if s == "lyrics:on"@ {
        Some(ControlCommand::On)
    } else if s == "lyrics:off"@ {
        Some(ControlCommand::Off)
    } else if s == "lyrics:toggle"@ {
        Some(ControlCommand::Toggle)
    } else {
        None
    }
}

impl ControlCommand {
    /// The command's text on the control socket.
    pub fn as_wire(self) -> (r: &'static str)
        ensures
            r@ == wire_text(self),
    {
        match self {
            ControlCommand::On => "lyrics:on",
            ControlCommand::Off => "lyrics:off",
            ControlCommand::Toggle => "lyrics:toggle",
        }
    }

    /// Reads a message from the control socket; surrounding white space is
    /// ignored and anything else is no command.
    pub fn parse_wire(value: &str) -> (r: Option<Self>)
        ensures
            r == wire_named(trim(value@)),
    {
        let key = trim_chars(chars_of(value).as_slice());
        let k = key.as_slice();
        if chars_equal_str(k, "lyrics:on") {
            Some(ControlCommand::On)
        } else if chars_equal_str(k, "lyrics:off") {
            Some(ControlCommand::Off)
        } else if chars_equal_str(k, "lyrics:toggle") {
            Some(ControlCommand::Toggle)
        } else {
            None
        }
    }
}

/// A text that neither begins nor ends with white space is its own trim.
proof fn lemma_trim_identity(s: Seq<char>)
    requires
        s.len() > 0,
        !is_white_space(s[0]),
        !is_white_space(s.last()),
    ensures
        trim(s) == s,
{
}

/// What one process sends, the running one reads back as the same command.
pub proof fn law_control_wire_roundtrip(command: ControlCommand)
    ensures
        wire_named(trim(wire_text(command))) == Some(command),
{
    reveal_strlit("lyrics:on");
    reveal_strlit("lyrics:off");
    reveal_strlit("lyrics:toggle");
    lemma_trim_identity(wire_text(command));
    assert("lyrics:off"@.len() != "lyrics:on"@.len());
    assert("lyrics:toggle"@.len() != "lyrics:on"@.len());
    assert("lyrics:toggle"@.len() != "lyrics:off"@.len());
}

} // verus!
