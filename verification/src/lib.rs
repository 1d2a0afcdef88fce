//! Playback session controller for a terminal audio player.
//!
//! The library owns the logic of one playback session: elapsed-time
//! accounting across pause/resume cycles ([`clock`]), decoding terminal key
//! events into transport commands ([`input`]), rendering elapsed totals as
//! `M:SS` ([`timefmt`]), and the session state machine that ties them
//! together ([`session`]). Everything that touches a device, the file
//! system or the terminal — the audio backend, the file enumerator, the
//! selection prompt, raw-mode control — lives outside and drives these
//! functions with plain values.

pub mod clock;
pub mod errors;
pub mod input;
pub mod session;
pub mod timefmt;
