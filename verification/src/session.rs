//! The playback session state machine.
//!
//! One `Session` exists per play invocation. It owns the pause flag, the
//! monotonic `finished` flag and the elapsed-time clock, and decides — from
//! each polled event, the current timestamp and the sink's exhaustion
//! signal — what the audio sink must do next and whether the command loop
//! is over. The caller performs the sink commands, the terminal rendering
//! and the thread plumbing; every decision is made here.

use vstd::prelude::*;
use crate::clock::{Clock, spec_pause, spec_resume, spec_snapshot};
use crate::input::{Command, TermEvent, spec_decode, decode_event};

verus! {

/// How long one poll of the terminal may block, in milliseconds. This bound
/// caps the worst-case latency between a keypress and its effect — and
/// between natural completion and its detection — at one interval per cycle.
pub const POLL_TIMEOUT_MS: u64 = 100;

/// How long the foreground wait sleeps between looks at the `finished`
/// flag, in milliseconds. Decoupled from the background loop's cadence, so
/// it may be coarser without hurting input responsiveness.
pub const FOREGROUND_WAIT_MS: u64 = 100;

/// What the audio sink (and the status display) must do after one step of
/// the state machine.
#[derive(Clone, Copy, PartialEq, Eq, Structural, Debug)]
pub enum SinkAction {
    /// Pause the sink and render "Paused at M:SS" for this total.
    StartPause { total_seconds: u64 },
    /// Resume the sink and render the resumed status line.
    Resume,
    /// Stop the sink: the user quit.
    Stop,
    /// Nothing to do this step.
    Stay,
}

/// The mutable state of one playback session.
pub struct Session {
    /// Whether playback is currently paused.
    pub paused: bool,
    /// Set exactly once — by the quit command or by natural stream
    /// exhaustion — and never reset; the sole termination signal.
    pub finished: bool,
    /// Elapsed-playing-time accounting.
    pub clock: Clock,
}

/// The session after the completion signal: `finished` is set, everything
/// else is untouched. Idempotent, so a second completion signal is a no-op.
pub open spec fn spec_finish(s: Session) -> Session {
    Session { paused: s.paused, finished: true, clock: s.clock }
}

/// The session after one transport command at time `now`: a no-op once
/// finished; quit sets `finished`; toggling pause flips `paused` and closes
/// or opens the clock's playing interval.
pub open spec fn spec_after_command(s: Session, cmd: Command, now: u64) -> Session {
    if s.finished {
        s
    } else {
        match cmd {
            Command::Quit => spec_finish(s),
            Command::TogglePause => {
                if s.paused {
                    Session { paused: false, finished: false, clock: spec_resume(s.clock, now) }
                } else {
                    Session { paused: true, finished: false, clock: spec_pause(s.clock, now) }
                }
            },
        }
    }
}

/// The sink action demanded by one transport command at time `now`.
pub open spec fn spec_action_for(s: Session, cmd: Command, now: u64) -> SinkAction {
    if s.finished {
        SinkAction::Stay
    } else {
        match cmd {
            Command::Quit => SinkAction::Stop,
            Command::TogglePause => {
                if s.paused {
                    SinkAction::Resume
                } else {
                    SinkAction::StartPause {
                        total_seconds: spec_pause(s.clock, now).accumulated_seconds,
                    }
                }
            },
        }
    }
}

/// The session after one full cycle of the command loop: the polled event's
/// command (if any) is applied, then the sink's exhaustion signal.
pub open spec fn spec_tick(s: Session, ev: Option<TermEvent>, now: u64, exhausted: bool) -> Session {
    let stepped = match spec_decode(ev) {
        Option::Some(cmd) => spec_after_command(s, cmd, now),
        Option::None => s,
    };
    if exhausted {
        spec_finish(stepped)
    } else {
        stepped
    }
}

/// The sink action demanded by one full cycle of the command loop.
pub open spec fn spec_tick_action(s: Session, ev: Option<TermEvent>, now: u64) -> SinkAction {
    match spec_decode(ev) {
        Option::Some(cmd) => spec_action_for(s, cmd, now),
        Option::None => SinkAction::Stay,
    }
}

impl Session {
    /// The pause flag and the clock's open playing interval always agree:
    /// the clock is running exactly while the session is not paused.
    pub open spec fn wf(&self) -> bool {
        self.paused <==> !self.clock.running
    }

    /// A fresh session at time `now`: playing (not paused), not finished,
    /// with the clock's first playing interval opened at `now`.
    pub fn new(now: u64) -> (s: Session)
        ensures
            s == (Session {
                paused: false,
                finished: false,
                clock: Clock { accumulated_seconds: 0, last_resume_at: now, running: true },
            }),
            s.wf(),
    {
        Session { paused: false, finished: false, clock: Clock::new(now) }
    }

    /// Applies one transport command at time `now` and returns the sink
    /// action it demands. Once finished, every command is a no-op.
    pub fn on_command(&mut self, cmd: Command, now: u64) -> (action: SinkAction)
        ensures
            *final(self) == spec_after_command(*old(self), cmd, now),
            action == spec_action_for(*old(self), cmd, now),
            old(self).finished ==> *final(self) == *old(self) && action == SinkAction::Stay,
            final(self).finished == (old(self).finished || cmd == Command::Quit),
            old(self).wf() ==> final(self).wf(),
    {
        if self.finished {
            SinkAction::Stay
        } else {
            match cmd {
                Command::Quit => {
                    self.finished = true;
                    SinkAction::Stop
                },
                Command::TogglePause => {
                    if self.paused {
                        self.paused = false;
                        self.clock.on_resume(now);
                        SinkAction::Resume
                    } else {
                        self.paused = true;
                        let total = self.clock.on_pause(now);
                        SinkAction::StartPause { total_seconds: total }
                    }
                },
            }
        }
    }

    /// Records that the sink reported natural stream exhaustion: `finished`
    /// is set; a repeat of the signal changes nothing.
    pub fn on_sink_exhausted(&mut self)
        ensures
            *final(self) == spec_finish(*old(self)),
            old(self).finished ==> *final(self) == *old(self),
            old(self).wf() ==> final(self).wf(),
    {
        self.finished = true;
    }

    /// One full cycle of the background command loop: decode the polled
    /// event, apply its command (if any), then fold in the sink's exhaustion
    /// signal. Returns the sink action to perform and whether the loop is
    /// over (exactly: whether the session is now finished).
    pub fn tick(&mut self, ev: Option<TermEvent>, now: u64, exhausted: bool) -> (r: (
        SinkAction,
        bool,
    ))
        ensures
            *final(self) == spec_tick(*old(self), ev, now, exhausted),
            r.0 == spec_tick_action(*old(self), ev, now),
            r.1 == final(self).finished,
            old(self).finished ==> *final(self) == *old(self) && r.0 == SinkAction::Stay,
            old(self).wf() ==> final(self).wf(),
    {
        let action = match decode_event(ev) {
            Option::Some(cmd) => self.on_command(cmd, now),
            Option::None => SinkAction::Stay,
        };
        if exhausted {
            self.on_sink_exhausted();
        }
        (action, self.finished)
    }

    /// Whether the session has reached its terminal state; the foreground
    /// wait loops on exactly this.
    pub fn is_finished(&self) -> (b: bool)
        ensures
            b == self.finished,
    {
        self.finished
    }

    /// The seconds of playback elapsed so far, live at time `now`: paused
    /// time is excluded, and while playing the currently open interval is
    /// included.
    pub fn elapsed_seconds(&self, now: u64) -> (total: u64)
        ensures
            total == spec_snapshot(self.clock, now),
            self.wf() && self.paused ==> total == self.clock.accumulated_seconds,
    {
        self.clock.snapshot(now)
    }
}

/// Everything one cycle of the command loop consumes: the polled event, the
/// current timestamp and the sink's exhaustion signal.
#[derive(Clone, Copy, PartialEq, Eq, Structural, Debug)]
pub struct TickInput {
    pub ev: Option<TermEvent>,
    pub now: u64,
    pub exhausted: bool,
}

/// The session after a whole sequence of command-loop cycles, in order.
pub open spec fn run_ticks(s: Session, inputs: Seq<TickInput>) -> Session
    decreases inputs.len(),
{
    if inputs.len() == 0 {
        s
    } else {
        spec_tick(
            run_ticks(s, inputs.drop_last()),
            inputs.last().ev,
            inputs.last().now,
            inputs.last().exhausted,
        )
    }
}

/// `finished` transitions false-to-true exactly once: after it is set —
/// whether by the quit command or by natural exhaustion — no sequence of
/// further events mutates the session at all. In particular a second
/// completion signal, from either source, is a no-op.
pub proof fn lemma_finished_is_terminal(s: Session, inputs: Seq<TickInput>)
    requires
        s.finished,
    ensures
        run_ticks(s, inputs) == s,
    decreases inputs.len(),
{
    if inputs.len() > 0 {
        lemma_finished_is_terminal(s, inputs.drop_last());
    }
}

/// `finished` is monotonic: once a cycle observes it set, every later cycle
/// leaves it set.
pub proof fn lemma_finished_monotone(s: Session, inputs: Seq<TickInput>)
    requires
        s.finished,
    ensures
        run_ticks(s, inputs).finished,
{
    lemma_finished_is_terminal(s, inputs);
}

} // verus!
