//! A timer that tells when a set time has passed.

use vstd::prelude::*;

verus! {

/// A timer over a clock that its user reads. Times are nanoseconds on that
/// clock; the clock is expected not to run backwards.
#[derive(Debug, PartialEq, Eq, Clone, Copy)]
pub struct Timer {
    pub target_duration: u128,
    pub starting_point: u128,
}

impl Timer {
    /// The time that has passed at `now` since the timer was started;
    /// nothing, should `now` lie before its start.
    pub open spec fn elapsed(self, now: u128) -> int {
        if now >= self.starting_point {
            now - self.starting_point
        } else {
            0
        }
    }

    /// Whether at `now` the set time has passed since the timer was started.
    pub open spec fn due(self, now: u128) -> bool {
        self.elapsed(now) >= self.target_duration
    }

    /// A timer for `duration`, started at `now`.
    pub fn new(duration: u128, now: u128) -> (timer: Timer)
        ensures
            timer == (Timer { target_duration: duration, starting_point: now }),
    {
        Timer { target_duration: duration, starting_point: now }
    }

    /// Sets the time to wait for. The start stays where it is.
    pub fn set_duration(&mut self, target_duration: u128)
        ensures
            *final(self) == (Timer { target_duration, starting_point: old(self).starting_point }),
    {
        self.target_duration = target_duration;
    }

    /// Starts the timer anew at `now`.
    pub fn reset(&mut self, now: u128)
        ensures
            *final(self) == (Timer {
                target_duration: old(self).target_duration,
                starting_point: now,
            }),
    {
        self.starting_point = now;
    }

    /// Tells whether at `now` the set time has passed since the start.
    pub fn has_elapsed(&mut self, now: u128) -> (elapsed: bool)
        ensures
            elapsed == old(self).due(now),
            *final(self) == *old(self),
    {
        if now >= self.starting_point {
            now - self.starting_point >= self.target_duration
        } else {
            self.target_duration == 0
        }
    }

    /// Tells whether at `now` the set time has passed since the start, and
    /// starts the timer anew at `now` either way.
    pub fn has_elapsed_reset(&mut self, now: u128) -> (elapsed: bool)
        ensures
            elapsed == old(self).due(now),
            *final(self) == (Timer {
                target_duration: old(self).target_duration,
                starting_point: now,
            }),
    {
        let has_elapsed = self.has_elapsed(now);
        self.reset(now);
        has_elapsed
    }

    /// A timer that has just been started is due only if it waits for no
    /// time at all, and a timer that is due stays due.
    pub proof fn lemma_due_is_monotonic(self, now: u128, later: u128)
        requires
            now <= later,
        ensures
            self.due(now) ==> self.due(later),
            self.due(self.starting_point) <==> self.target_duration == 0,
    {
    }
}

} // verus!
