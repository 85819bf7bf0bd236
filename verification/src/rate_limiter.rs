//! The pause between requests to the marketplace.
//!
//! Time is a count of milliseconds on a clock that never runs backwards.
//! The limiter decides how long a caller has to wait; the caller sleeps,
//! and reports the moment at which it sends.

use vstd::prelude::*;

verus! {

/// The pause that a client keeps unless told otherwise, in milliseconds.
pub const DEFAULT_RATE_LIMIT_MS: u64 = 1000;

/// When the last request went out, and how long to keep off after it.
#[derive(Debug, Clone)]
pub struct RateLimiter {
    /// The moment of the last request; `None` before the first.
    pub last_request_ms: Option<u64>,
    /// The least time between two requests.
    pub delay_ms: u64,
}

impl RateLimiter {
    /// How long a caller who asks at `now_ms` has to wait: what is missing
    /// of the delay since the last request, and nothing before the first
    /// request.
    pub open spec fn wait_at(self, now_ms: u64) -> u64 {
        match self.last_request_ms {
            None => 0,
            Some(last) => {
                let elapsed = if now_ms >= last {
                    now_ms - last
                } else {
                    0
                };
                if elapsed < self.delay_ms {
                    (self.delay_ms - elapsed) as u64
                } else {
                    0
                }
            },
        }
    }

    /// A limiter that has seen no request yet.
    pub fn new(delay_ms: u64) -> (limiter: RateLimiter)
        ensures
            limiter.last_request_ms is None,
            limiter.delay_ms == delay_ms,
    {
        RateLimiter { last_request_ms: None, delay_ms }
    }

    /// How many milliseconds the caller has to wait before it may send.
    pub fn wait_time(&self, now_ms: u64) -> (wait: u64)
        ensures
            wait == self.wait_at(now_ms),
            wait <= self.delay_ms,
            self.last_request_ms is None ==> wait == 0,
    {
        match self.last_request_ms {
            None => 0,
            Some(last) => {
                let elapsed = if now_ms >= last {
                    now_ms - last
                } else {
                    0
                };
                if elapsed < self.delay_ms {
                    self.delay_ms - elapsed
                } else {
                    0
                }
            },
        }
    }

    /// Notes that a request goes out at `now_ms`.
    pub fn record_request(&mut self, now_ms: u64)
        ensures
            final(self).last_request_ms == Some(now_ms),
            final(self).delay_ms == old(self).delay_ms,
    {
        self.last_request_ms = Some(now_ms);
    }
}

/// A caller that waits as long as the limiter says sends no sooner than the
/// delay after the request before: if the last request went out at `last`,
/// the caller asks at `now`, and sends at `sent` after waiting at least
/// `wait_at(now)`, then `sent` is at least `last + delay_ms`.
pub proof fn lemma_requests_keep_their_distance(limiter: RateLimiter, now: u64, sent: u64)
    requires
        limiter.last_request_ms matches Some(last) && last <= now,
        sent >= now + limiter.wait_at(now),
    ensures
        sent >= limiter.last_request_ms->0 + limiter.delay_ms,
{
}

} // verus!
