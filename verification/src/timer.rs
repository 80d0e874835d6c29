//! Timers that count milliseconds.

use vstd::prelude::*;

verus! {

/// A timer. It runs out when `elapsed` reaches `duration`; a repeating
/// timer then starts again from nothing, any other stays run out. A timer
/// that is to wait before its first round starts below zero.
#[derive(Clone, Copy, PartialEq, Eq, Debug, Structural)]
pub struct Timer {
    pub duration: u32,
    pub elapsed: i64,
    pub repeating: bool,
    pub finished: bool,
}

impl Timer {
    /// A fresh timer of `duration` milliseconds.
    pub fn from_millis(duration: u32, repeating: bool) -> (timer: Timer)
        ensures
            timer == (Timer { duration, elapsed: 0, repeating, finished: false }),
    {
        Timer { duration, elapsed: 0, repeating, finished: false }
    }

    /// Whether the timer runs out in a step of `delta` milliseconds. A timer
    /// runs out once in a step, however long the step; one that does not
    /// repeat runs out once for all.
    pub open spec fn fires(self, delta: u32) -> bool {
        (self.repeating || !self.finished) && self.elapsed + delta >= self.duration
    }

    /// The timer after a step of `delta` milliseconds.
    pub open spec fn ticked(self, delta: u32) -> Timer {
        if self.fires(delta) {
            Timer {
                elapsed: if self.repeating {
                    0
                } else {
                    self.duration as i64
                },
                finished: true,
                ..self
            }
        } else if self.finished && !self.repeating {
            self
        } else {
            Timer { elapsed: (self.elapsed + delta) as i64, finished: false, ..self }
        }
    }

    /// Moves the timer on by `delta` milliseconds and says whether it has
    /// just run out.
    pub fn tick(&mut self, delta: u32) -> (just_finished: bool)
        ensures
            just_finished == old(self).fires(delta),
            *final(self) == old(self).ticked(delta),
    {
        if self.finished && !self.repeating {
            return false;
        }
        let sum: i128 = self.elapsed as i128 + delta as i128;
        if sum >= self.duration as i128 {
            self.elapsed = if self.repeating {
                0
            } else {
                self.duration as i64
            };
            self.finished = true;
            true
        } else {
            self.elapsed = sum as i64;
            self.finished = false;
            false
        }
    }
}

/// A timer that has not run out and is moved on by less than it has left
/// does not run out; once the steps add up to what it had left, it has run
/// out exactly once.
pub proof fn lemma_timer_runs_out_on_time(timer: Timer, first: u32, second: u32)
    requires
        !timer.finished,
        timer.elapsed <= timer.duration,
    ensures
        timer.elapsed + first < timer.duration ==> !timer.fires(first) && timer.ticked(
            first,
        ).elapsed == timer.elapsed + first,
        timer.elapsed + first < timer.duration && timer.elapsed + first + second
            >= timer.duration ==> timer.ticked(first).fires(second),
        timer.fires(first) && timer.repeating && second < timer.duration ==> !timer.ticked(
            first,
        ).fires(second),
        timer.fires(first) && !timer.repeating ==> !timer.ticked(first).fires(second)
            && timer.ticked(first).ticked(second) == timer.ticked(first),
{
}

} // verus!
