//! The pool-wide request counter.

use vstd::prelude::*;

verus! {

/// Counts the requests that the whole pool has served in the current
/// minute.  A request is admitted only while the count is under the ceiling.
#[derive(Debug)]
pub struct RateLimiter {
    count: u32,
}

impl View for RateLimiter {
    type V = nat;

    /// The requests counted so far in the current minute.
    closed spec fn view(&self) -> nat {
        self.count as nat
    }
}

impl RateLimiter {
    /// A counter that stands at zero.
    pub fn new() -> (limiter: RateLimiter)
        ensures
            limiter@ == 0,
    {
        RateLimiter { count: 0 }
    }

    /// The requests counted so far in the current minute.
    pub fn current(&self) -> (count: u32)
        ensures
            count == self@,
    {
        self.count
    }

    /// Admits one request if the count is under `limit`, and counts it.
    /// At or over the limit nothing changes.  A count that was within the
    /// limit stays within it.
    pub fn try_reserve(&mut self, limit: u32) -> (reserved: bool)
        ensures
            reserved == (old(self)@ < limit),
            reserved ==> final(self)@ == old(self)@ + 1,
            !reserved ==> final(self)@ == old(self)@,
            old(self)@ <= limit ==> final(self)@ <= limit,
    {
        if self.count < limit {
            self.count = self.count + 1;
            true
        } else {
            false
        }
    }

    /// Starts a new minute: the count goes back to zero.
    pub fn reset(&mut self)
        ensures
            final(self)@ == 0,
    {
        self.count = 0;
    }
}

} // verus!
