//! Rate limiting: the decision rule of a fixed-window counter.
//!
//! The surrounding service keeps one `(count, window start)` entry per
//! client and asks [`RateLimiter::decide`] what to do with the next
//! request; the clock, the per-client table and its lock stay outside
//! this crate.

use vstd::prelude::*;

verus! {

/// A fixed-window rate limiter allowing `requests_per_minute` requests
/// per client and minute.
#[derive(Clone, Copy, Debug)]
pub struct RateLimiter {
    pub requests_per_minute: usize,
}

/// What to do with one request: whether to let it through, the client's
/// new request count, and whether the window starts over.
pub open spec fn spec_decide(limit: usize, entry: Option<(usize, u64)>) -> (bool, usize, bool) {
    match entry {
        None => (true, 1usize, true),
        Some((count, elapsed)) => if elapsed > 60 {
            (true, 1usize, true)
        } else if count < limit {
            (true, (count + 1) as usize, false)
        } else {
            (false, count, false)
        },
    }
}

impl RateLimiter {
    /// A limiter allowing `requests_per_minute` requests per client and
    /// minute.
    pub fn new(requests_per_minute: usize) -> (r: Self)
        ensures
            r.requests_per_minute == requests_per_minute,
    {
        RateLimiter { requests_per_minute }
    }

    /// Decides one request. `entry` is the client's current window —
    /// its request count and the seconds elapsed since the window
    /// started — or `None` for a client seen for the first time. A
    /// fresh or expired window admits the request and starts over at
    /// count 1; within the window the request is admitted while the
    /// count is below the limit, and refused with the count unchanged
    /// once it is not.
    pub fn decide(&self, entry: Option<(usize, u64)>) -> (r: (bool, usize, bool))
        ensures
            r == spec_decide(self.requests_per_minute, entry),
    {
        match entry {
            None => (true, 1, true),
            Some((count, elapsed)) => {
                if elapsed > 60 {
                    (true, 1, true)
                } else if count < self.requests_per_minute {
                    (true, count + 1, false)
                } else {
                    (false, count, false)
                }
            },
        }
    }
}

impl Default for RateLimiter {
    /// Sixty requests per minute unless configured otherwise.
    fn default() -> (r: Self)
        ensures
            r.requests_per_minute == 60,
    {
        RateLimiter::new(60)
    }
}

} // verus!
