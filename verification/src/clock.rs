//! Elapsed-playback-time accounting across pause/resume cycles.
//!
//! The clock counts whole seconds spent in the playing state. It is driven
//! by timestamps (seconds since some fixed origin) handed in by the caller,
//! so its behaviour is a pure function of the event sequence it sees.

use vstd::prelude::*;

verus! {

/// Tracks seconds elapsed while playing, robust to arbitrarily many
/// pause/resume cycles: intervals are never double-counted and a negative
/// wall-clock delta (clock skew) is clamped to zero instead of panicking.
pub struct Clock {
    /// Seconds accumulated over all completed playing intervals.
    pub accumulated_seconds: u64,
    /// Timestamp of the most recent transition into the playing state.
    pub last_resume_at: u64,
    /// Whether the clock is currently inside a playing interval.
    pub running: bool,
}

/// Duration from `last` to `now`, clamped to zero when `now` lies before
/// `last` (clock skew never yields a negative interval).
pub open spec fn clamped_delta(last: u64, now: u64) -> int {
    if now >= last {
        now - last
    } else {
        0
    }
}

/// `u64` addition that saturates at `u64::MAX` instead of overflowing.
pub open spec fn saturating_add(a: u64, d: int) -> u64 {
    if a + d <= u64::MAX {
        (a + d) as u64
    } else {
        u64::MAX
    }
}

/// The clock after a resume event at time `now`: a new playing interval
/// begins; the accumulated total is untouched.
pub open spec fn spec_resume(c: Clock, now: u64) -> Clock {
    Clock { accumulated_seconds: c.accumulated_seconds, last_resume_at: now, running: true }
}

/// The clock after a pause event at time `now`: if a playing interval was
/// open, its clamped duration is added to the total and the interval closes;
/// a pause with no open interval changes nothing.
pub open spec fn spec_pause(c: Clock, now: u64) -> Clock {
    if c.running {
        Clock {
            accumulated_seconds: saturating_add(
                c.accumulated_seconds,
                clamped_delta(c.last_resume_at, now),
            ),
            last_resume_at: c.last_resume_at,
            running: false,
        }
    } else {
        c
    }
}

/// The live total at time `now`: the closed intervals plus, while playing,
/// the clamped duration of the interval currently open.
pub open spec fn spec_snapshot(c: Clock, now: u64) -> u64 {
    if c.running {
        saturating_add(c.accumulated_seconds, clamped_delta(c.last_resume_at, now))
    } else {
        c.accumulated_seconds
    }
}

impl Clock {
    /// A fresh clock: playback starts immediately, so the first playing
    /// interval opens at `now` with nothing accumulated yet.
    pub fn new(now: u64) -> (c: Clock)
        ensures
            c == (Clock { accumulated_seconds: 0, last_resume_at: now, running: true }),
    {
        Clock { accumulated_seconds: 0, last_resume_at: now, running: true }
    }

    /// Records `now` as the start of a new playing interval.
    pub fn on_resume(&mut self, now: u64)
        ensures
            *final(self) == spec_resume(*old(self), now),
            final(self).accumulated_seconds == old(self).accumulated_seconds,
    {
        self.last_resume_at = now;
        self.running = true;
    }

    /// Closes the current playing interval at `now`, adding its duration
    /// (clamped at zero if `now` precedes the last resume) to the total, and
    /// returns the updated total. Pausing an already-paused clock is a no-op.
    pub fn on_pause(&mut self, now: u64) -> (total: u64)
        ensures
            *final(self) == spec_pause(*old(self), now),
            total == final(self).accumulated_seconds,
            final(self).accumulated_seconds >= old(self).accumulated_seconds,
    {
        if self.running {
            let delta: u64 = if now >= self.last_resume_at {
                now - self.last_resume_at
            } else {
                0
            };
            self.accumulated_seconds = if self.accumulated_seconds <= u64::MAX - delta {
                self.accumulated_seconds + delta
            } else {
                u64::MAX
            };
            self.running = false;
        }
        self.accumulated_seconds
    }

    /// The total at `now` without mutating the clock: while paused it is the
    /// accumulated total unchanged; while playing, that total plus the time
    /// since the last resume.
    pub fn snapshot(&self, now: u64) -> (total: u64)
        ensures
            total == spec_snapshot(*self, now),
            total >= self.accumulated_seconds,
    {
        if self.running {
            let delta: u64 = if now >= self.last_resume_at {
                now - self.last_resume_at
            } else {
                0
            };
            if self.accumulated_seconds <= u64::MAX - delta {
                self.accumulated_seconds + delta
            } else {
                u64::MAX
            }
        } else {
            self.accumulated_seconds
        }
    }
}

/// One full pause/resume cycle: a resume at `r` followed by a pause at `p`.
pub open spec fn spec_cycle(c: Clock, r: u64, p: u64) -> Clock {
    spec_pause(spec_resume(c, r), p)
}

/// The clock after a whole sequence of resume/pause cycles, applied in order.
pub open spec fn run_cycles(c: Clock, cycles: Seq<(u64, u64)>) -> Clock
    decreases cycles.len(),
{
    if cycles.len() == 0 {
        c
    } else {
        spec_cycle(run_cycles(c, cycles.drop_last()), cycles.last().0, cycles.last().1)
    }
}

/// The sum of the clamped durations of a sequence of playing intervals.
pub open spec fn interval_sum(cycles: Seq<(u64, u64)>) -> int
    decreases cycles.len(),
{
    if cycles.len() == 0 {
        0
    } else {
        interval_sum(cycles.drop_last()) + clamped_delta(cycles.last().0, cycles.last().1)
    }
}

/// The sum of clamped interval durations is never negative.
pub proof fn lemma_interval_sum_nonneg(cycles: Seq<(u64, u64)>)
    ensures
        interval_sum(cycles) >= 0,
    decreases cycles.len(),
{
    if cycles.len() > 0 {
        lemma_interval_sum_nonneg(cycles.drop_last());
    }
}

/// Time accounting is interval-additive and pause/resume-invariant: over any
/// sequence of resume/pause cycles, the accumulated total grows by exactly
/// the sum of the playing-interval durations, no matter how many cycles
/// occurred — as long as that sum still fits in the counter.
pub proof fn lemma_interval_additivity(c: Clock, cycles: Seq<(u64, u64)>)
    requires
        c.accumulated_seconds + interval_sum(cycles) <= u64::MAX,
    ensures
        run_cycles(c, cycles).accumulated_seconds == c.accumulated_seconds + interval_sum(cycles),
    decreases cycles.len(),
{
    if cycles.len() > 0 {
        let prefix = cycles.drop_last();
        lemma_interval_sum_nonneg(prefix);
        lemma_interval_additivity(c, prefix);
    }
}

/// Pausing an already-paused clock is a no-op: a second pause event with no
/// resume in between neither double-counts nor underflows the total.
pub proof fn lemma_pause_twice_is_noop(c: Clock, t1: u64, t2: u64)
    ensures
        spec_pause(spec_pause(c, t1), t2) == spec_pause(c, t1),
{
}

} // verus!
