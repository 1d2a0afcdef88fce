//! The failure taxonomy of a play invocation.
//!
//! Every failure is fatal to the invocation that hit it and is surfaced to
//! the caller as a distinct kind; nothing is retried. The caller (an
//! interactive browse loop, say) decides whether to re-prompt or exit.

use vstd::prelude::*;

verus! {

/// Why a play invocation failed before or during setup.
#[derive(Clone, Copy, PartialEq, Eq, Structural, Debug)]
pub enum PlayError {
    /// No audio output device could be obtained.
    DeviceUnavailable,
    /// The source file is missing or unreadable.
    SourceUnreadable,
    /// The stream's header could not be decoded: unsupported or corrupt.
    UnsupportedFormat,
    /// Raw-mode entry/exit or status rendering failed.
    TerminalIoError,
}

impl PlayError {
    /// A short human-readable account of which step failed.
    pub fn describe(&self) -> (s: &'static str)
        ensures
            *self == PlayError::DeviceUnavailable ==> s@ == "audio device unavailable"@,
            *self == PlayError::SourceUnreadable ==> s@ == "source file missing or unreadable"@,
            *self == PlayError::UnsupportedFormat ==> s@ == "unsupported or corrupt stream"@,
            *self == PlayError::TerminalIoError ==> s@ == "terminal I/O failure"@,
    {
        match self {
            PlayError::DeviceUnavailable => "audio device unavailable",
            PlayError::SourceUnreadable => "source file missing or unreadable",
            PlayError::UnsupportedFormat => "unsupported or corrupt stream",
            PlayError::TerminalIoError => "terminal I/O failure",
        }
    }
}

/// The outcome of session setup, given which steps succeeded. Setup runs in
/// a fixed order — obtain the device, open the file, decode the header,
/// enter raw mode — and the first failing step decides the error, so a
/// device failure is reported before the terminal is ever touched and
/// before any background work starts.
pub open spec fn spec_setup_outcome(
    device_ok: bool,
    source_ok: bool,
    format_ok: bool,
    terminal_ok: bool,
) -> Result<(), PlayError> {
    if !device_ok {
        Result::Err(PlayError::DeviceUnavailable)
    } else if !source_ok {
        Result::Err(PlayError::SourceUnreadable)
    } else if !format_ok {
        Result::Err(PlayError::UnsupportedFormat)
    } else if !terminal_ok {
        Result::Err(PlayError::TerminalIoError)
    } else {
        Result::Ok(())
    }
}

/// Decides how session setup ended: `Ok` exactly when every step succeeded,
/// and otherwise the error of the first step that failed, in setup order
/// (device, then source file, then stream format, then terminal).
pub fn setup_outcome(device_ok: bool, source_ok: bool, format_ok: bool, terminal_ok: bool) -> (r:
    Result<(), PlayError>)
    ensures
        r == spec_setup_outcome(device_ok, source_ok, format_ok, terminal_ok),
        r is Ok <==> device_ok && source_ok && format_ok && terminal_ok,
{
    if !device_ok {
        Result::Err(PlayError::DeviceUnavailable)
    } else if !source_ok {
        Result::Err(PlayError::SourceUnreadable)
    } else if !format_ok {
        Result::Err(PlayError::UnsupportedFormat)
    } else if !terminal_ok {
        Result::Err(PlayError::TerminalIoError)
    } else {
        Result::Ok(())
    }
}

} // verus!
