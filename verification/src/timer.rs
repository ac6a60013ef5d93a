//! A countdown timer over whole milliseconds. Periodic spawning is driven
//! by a repeating timer: each frame adds the frame delta, and the timer
//! reports whether it finished during that frame.

use vstd::prelude::*;

verus! {

/// Whether a timer stops at its duration or starts over each time it
/// reaches it.
#[derive(Clone, Copy, Debug, PartialEq, Eq, Structural)]
pub enum TimerMode {
    Once,
    Repeating,
}

/// A timer that accumulates elapsed milliseconds towards a fixed duration.
#[derive(Clone, Copy, Debug, PartialEq, Eq, Structural)]
pub struct Timer {
    /// Full duration of one cycle, in milliseconds; always positive.
    pub duration_ms: u64,
    /// Time accumulated towards the current cycle, in milliseconds.
    pub elapsed_ms: u64,
    /// Whether the timer repeats after reaching its duration.
    pub mode: TimerMode,
    /// Whether the timer reached its duration during the latest tick
    /// (repeating), or at any point so far (once).
    pub finished: bool,
}

impl Timer {
    /// The duration is positive and the accumulated time never runs past it.
    pub open spec fn well_formed(self) -> bool {
        &&& self.duration_ms >= 1
        &&& self.elapsed_ms <= self.duration_ms
        &&& (self.mode is Repeating ==> self.elapsed_ms < self.duration_ms)
    }

    pub fn new(duration_ms: u64, mode: TimerMode) -> (t: Timer)
        requires
            duration_ms >= 1,
        ensures
            t == (Timer { duration_ms, elapsed_ms: 0, mode, finished: false }),
            t.well_formed(),
    {
        Timer { duration_ms, elapsed_ms: 0, mode, finished: false }
    }

    /// Advance the timer by one frame delta. A repeating timer wraps its
    /// accumulated time around the duration and finishes exactly on the
    /// frames where a cycle completes; a once timer saturates at its
    /// duration and stays finished from then on.
    pub fn tick(&mut self, delta_ms: u64)
        requires
            old(self).well_formed(),
            old(self).elapsed_ms + delta_ms <= u64::MAX,
        ensures
            final(self).well_formed(),
            final(self).duration_ms == old(self).duration_ms,
            final(self).mode == old(self).mode,
            final(self).finished == (old(self).elapsed_ms + delta_ms
                >= old(self).duration_ms || (old(self).mode is Once && old(self).finished)),
            final(self).elapsed_ms == (if old(self).mode is Repeating {
                (old(self).elapsed_ms + delta_ms) % (old(self).duration_ms as int)
            } else if old(self).elapsed_ms + delta_ms >= old(self).duration_ms {
                old(self).duration_ms as int
            } else {
                old(self).elapsed_ms + delta_ms
            }),
    {
        let total: u64 = self.elapsed_ms + delta_ms;
        match self.mode {
            TimerMode::Repeating => {
                self.finished = total >= self.duration_ms;
                self.elapsed_ms = total % self.duration_ms;
            },
            TimerMode::Once => {
                if total >= self.duration_ms {
                    self.finished = true;
                    self.elapsed_ms = self.duration_ms;
                } else {
                    self.elapsed_ms = total;
                }
            },
        }
    }

    /// Whether the timer's cycle completed: during the latest tick for a
    /// repeating timer, or at any point so far for a once timer.
    pub fn finished(&self) -> (r: bool)
        ensures
            r == self.finished,
    {
        self.finished
    }
}

} // verus!
