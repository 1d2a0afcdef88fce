//! Decoding terminal key events into transport commands.
//!
//! The terminal backend polls for an event with a bounded timeout and hands
//! the library a plain description of what arrived (if anything). Only a
//! key *press* of the space bar or of `q` means anything; every other
//! event — a key release, a non-character key, a resize, or no event at all
//! within the timeout — is explicitly ignored, not an error.

use vstd::prelude::*;

verus! {

/// A transport command the user can issue during playback.
#[derive(Clone, Copy, PartialEq, Eq, Structural, Debug)]
pub enum Command {
    /// Toggle between the playing and paused states (space bar).
    TogglePause,
    /// Stop playback and end the session (`q`).
    Quit,
}

/// What one bounded poll of the terminal observed, reduced to the fields the
/// controller reads: whether a key event arrived, which character it carries,
/// and whether it was a press (releases are reported on some platforms and
/// must be ignored).
#[derive(Clone, Copy, PartialEq, Eq, Structural, Debug)]
pub enum TermEvent {
    /// A key event carrying a printable character.
    CharKey { ch: char, is_press: bool },
    /// A key event with no character (arrows, function keys, ...).
    OtherKey { is_press: bool },
    /// Any non-key event (resize, focus, paste, ...).
    NonKey,
}

/// The command meant by one poll result: `TogglePause` for a space press,
/// `Quit` for a `q` press, nothing for everything else.
pub open spec fn spec_decode(ev: Option<TermEvent>) -> Option<Command> {
    match ev {
        Option::Some(TermEvent::CharKey { ch, is_press }) => {
            if is_press && ch == ' ' {
                Option::Some(Command::TogglePause)
            } else if is_press && ch == 'q' {
                Option::Some(Command::Quit)
            } else {
                Option::None
            }
        },
        _ => Option::None,
    }
}

/// Decodes the result of one bounded poll into a transport command: a space
/// press toggles pause, a `q` press quits, and everything else — no event,
/// a key release, an unrecognized key, a non-key event — yields no command.
pub fn decode_event(ev: Option<TermEvent>) -> (cmd: Option<Command>)
    ensures
        cmd == spec_decode(ev),
{
    match ev {
        Option::Some(TermEvent::CharKey { ch, is_press }) => {
            if is_press && ch == ' ' {
                Option::Some(Command::TogglePause)
            } else if is_press && ch == 'q' {
                Option::Some(Command::Quit)
            } else {
                Option::None
            }
        },
        _ => Option::None,
    }
}

} // verus!
