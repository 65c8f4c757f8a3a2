//! Countdowns that are advanced by the elapsed time of each tick.
//!
//! A `Timer` holds its state as plain nanosecond counts. Advancing it is left
//! to the timer of the `bevy` engine, so that a countdown kept here finishes
//! on exactly the tick on which the engine's own timer would.

use vstd::prelude::*;

verus! {

/// What a timer does once its duration has elapsed.
#[derive(Clone, Copy, PartialEq, Eq, Debug, Structural)]
pub enum TimerMode {
    /// Stop at the duration and stay finished.
    Once,
    /// Wrap around and run again.
    Repeating,
}

/// A countdown of `duration` nanoseconds.
#[derive(Clone, Copy, PartialEq, Eq, Debug, Structural)]
pub struct Timer {
    /// Length of one run, in nanoseconds.
    pub duration: u64,
    /// Time counted in the current run, in nanoseconds.
    pub elapsed: u64,
    pub mode: TimerMode,
    /// Whether the last counted tick reached the duration.
    pub finished: bool,
    /// How many runs the last tick completed.
    pub times_finished_this_tick: u32,
}

impl Timer {
    /// A timer that has counted nothing yet.
    pub open spec fn fresh(duration: u64, mode: TimerMode) -> Timer {
        Timer { duration, elapsed: 0, mode, finished: false, times_finished_this_tick: 0 }
    }

    /// The timer after `delta` more nanoseconds have been counted, given that
    /// it was not a finished one-shot timer. Short of the duration the time
    /// simply accumulates. A one-shot timer that reaches it stops there,
    /// having finished once. A repeating timer keeps the remainder and has
    /// finished once for each whole duration covered (counted modulo `2^32`);
    /// with a duration of zero it finishes `u32::MAX` times and keeps nothing.
    pub open spec fn counted(self, delta: u64) -> Timer {
        let total = self.elapsed + delta;
        if total < self.duration {
            Timer {
                elapsed: total as u64,
                finished: false,
                times_finished_this_tick: 0,
                ..self
            }
        } else if self.mode == TimerMode::Once {
            Timer { elapsed: self.duration, finished: true, times_finished_this_tick: 1, ..self }
        } else if self.duration == 0 {
            Timer { elapsed: 0, finished: true, times_finished_this_tick: u32::MAX, ..self }
        } else {
            Timer {
                elapsed: (total % (self.duration as int)) as u64,
                finished: true,
                times_finished_this_tick: ((total / (self.duration as int)) % 0x1_0000_0000) as u32,
                ..self
            }
        }
    }

    /// The timer after a tick of `delta` nanoseconds. A one-shot timer that
    /// has finished only forgets that it just did; any other timer counts.
    pub open spec fn ticked(self, delta: u64) -> Timer {
        if self.mode == TimerMode::Once && self.finished {
            Timer { times_finished_this_tick: 0, ..self }
        } else {
            self.counted(delta)
        }
    }

    /// Whether the last tick completed at least one run.
    pub open spec fn spec_just_finished(&self) -> bool {
        self.times_finished_this_tick > 0
    }

    /// The timer wound back to its start.
    pub open spec fn rewound(self) -> Timer {
        Timer { elapsed: 0, finished: false, times_finished_this_tick: 0, ..self }
    }

    /// Creates a timer of `duration` nanoseconds.
    pub fn new(duration: u64, mode: TimerMode) -> (t: Timer)
        ensures
            t == Timer::fresh(duration, mode),
    {
        Timer { duration, elapsed: 0, mode, finished: false, times_finished_this_tick: 0 }
    }

    /// Advances the timer by `delta` nanoseconds.
    pub fn tick(&mut self, delta: u64)
        ensures
            *final(self) == old(self).ticked(delta),
    {
        match self.mode {
            TimerMode::Once => {
                if self.finished {
                    self.times_finished_this_tick = 0;
                } else {
                    *self = count(*self, delta);
                }
            },
            TimerMode::Repeating => {
                *self = count(*self, delta);
            },
        }
    }

    /// Whether the last counted tick reached the duration.
    pub fn is_finished(&self) -> (r: bool)
        ensures
            r == self.finished,
    {
        self.finished
    }

    /// Whether the last tick completed at least one run.
    #[verifier::when_used_as_spec(spec_just_finished)]
    pub fn just_finished(&self) -> (r: bool)
        ensures
            r == self.spec_just_finished(),
    {
        self.times_finished_this_tick > 0
    }

    /// Winds the timer back to its start.
    pub fn reset(&mut self)
        ensures
            *final(self) == old(self).rewound(),
    {
        self.elapsed = 0;
        self.finished = false;
        self.times_finished_this_tick = 0;
    }

    /// Length of one run, in nanoseconds.
    pub fn duration(&self) -> (d: u64)
        ensures
            d == self.duration,
    {
        self.duration
    }
}

/// Advances a timer by `bevy::time::Timer::tick`: an engine timer of the same
/// duration and mode is set to the same elapsed time, ticked by `delta`, and
/// read back. The engine timer starts out unfinished, so the contract is
/// claimed only for a repeating timer or a one-shot timer that has not
/// finished. It says that the engine adds `delta` to the elapsed time, clamps
/// a one-shot timer at its duration, and wraps a repeating one, counting the
/// completed runs, as `Timer::counted` spells out.
#[verifier::external_body]
fn count(timer: Timer, delta: u64) -> (r: Timer)
    requires
        timer.mode == TimerMode::Repeating || !timer.finished,
    ensures
        r == timer.counted(delta),
{
    let mode = match timer.mode {
        TimerMode::Once => bevy::time::TimerMode::Once,
        TimerMode::Repeating => bevy::time::TimerMode::Repeating,
    };
    let mut engine = bevy::time::Timer::new(std::time::Duration::from_nanos(timer.duration), mode);
    engine.set_elapsed(std::time::Duration::from_nanos(timer.elapsed));
    engine.tick(std::time::Duration::from_nanos(delta));
    Timer {
        elapsed: engine.elapsed().as_nanos() as u64,
        finished: engine.is_finished(),
        times_finished_this_tick: engine.times_finished_this_tick(),
        ..timer
    }
}

} // verus!
