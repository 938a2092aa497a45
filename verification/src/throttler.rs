//! A monotonic-time-gated rate limiter, used to throttle repeated
//! diagnostic emissions.

use vstd::prelude::*;

verus! {

/// Saturating addition on `u64`, the arithmetic the throttler's deadline
/// advances by.
pub open spec fn sat_add(a: u64, b: u64) -> u64 {
    if a + b > u64::MAX {
        u64::MAX
    } else {
        (a + b) as u64
    }
}

/// Handles only doing some task once per set interval: `update(now)` permits
/// the task (and advances the deadline by the interval) exactly when `now`
/// strictly exceeds the current deadline.
pub struct Throttler {
    /// The next permitted time: `update(now)` fires only for `now` strictly
    /// beyond this deadline.
    pub next_send: u64,
    /// The interval by which the deadline advances on each firing.
    pub interval: u64,
}

impl Throttler {
    /// Whether a call at time `now` is permitted.
    pub open spec fn fires(self, now: u64) -> bool {
        now > self.next_send
    }

    /// The throttler state after a call at time `now`: the deadline advances
    /// by the interval exactly when the call fires.
    pub open spec fn stepped(self, now: u64) -> Throttler {
        if self.fires(now) {
            Throttler { next_send: sat_add(self.next_send, self.interval), interval: self.interval }
        } else {
            self
        }
    }

    /// Create a new throttler whose first permitted time lies one interval
    /// past `now`.
    pub fn new(now: u64, interval: u64) -> (r: Throttler)
        ensures
            r.next_send == sat_add(now, interval),
            r.interval == interval,
    {
        Throttler { next_send: now.saturating_add(interval), interval }
    }

    /// Update the throttler. Returns true if the task should be performed,
    /// in which case the deadline has advanced by the interval; a false
    /// result mutates nothing.
    pub fn update(&mut self, now: u64) -> (r: bool)
        ensures
            r == old(self).fires(now),
            *final(self) == old(self).stepped(now),
    {
        if now > self.next_send {
            self.next_send = self.next_send.saturating_add(self.interval);
            true
        } else {
            false
        }
    }
}

/// The deadline advance law: each firing call moves the deadline up by the
/// interval, and a non-firing call leaves the whole state untouched.
pub proof fn lemma_throttler_step(t: Throttler, now: u64)
    ensures
        t.fires(now) ==> t.stepped(now) == (Throttler {
            next_send: sat_add(t.next_send, t.interval),
            interval: t.interval,
        }),
        !t.fires(now) ==> t.stepped(now) == t,
{
}

} // verus!
