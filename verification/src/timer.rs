//! Monotonic clock since boot.
//!
//! The timer counts microseconds elapsed since boot and never moves
//! backwards: the only mutation is [`Timer::advance`], which adds a
//! non-negative number of ticks. Millisecond readings are derived from
//! the same counter, so the two resolutions are always consistent.

use vstd::prelude::*;

verus! {

/// A monotonic clock: microseconds elapsed since boot. Not calendar time.
pub struct Timer {
    /// Microseconds since boot.
    pub us: usize,
}

impl Timer {
    /// A clock at the instant of boot.
    pub fn new() -> (t: Timer)
        ensures
            t.us == 0,
    {
        Timer { us: 0 }
    }

    /// Current reading in microseconds since boot.
    pub fn get_time_us(&self) -> (r: usize)
        ensures
            r == self.us,
    {
        self.us
    }

    /// Current reading in milliseconds since boot; always exactly
    /// `get_time_us() / 1000`, so the two resolutions agree.
    pub fn get_time_ms(&self) -> (r: usize)
        ensures
            r == self.us / 1000,
    {
        self.us / 1000
    }

    /// The platform counter ticked forward by `delta` microseconds.
    /// Time only ever grows, so successive readings never decrease.
    pub fn advance(&mut self, delta: usize)
        requires
            old(self).us + delta <= usize::MAX,
        ensures
            final(self).us == old(self).us + delta,
    {
        self.us = self.us + delta;
    }
}

} // verus!
