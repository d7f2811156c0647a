//! A bounded retry policy: closing the pumpkin window may transiently fail
//! while the surface tears down asynchronously, so the teardown retries a
//! fixed number of times at a fixed interval and then gives up, best-effort.

use vstd::prelude::*;

verus! {

/// How long a chase may run before the timeout worker aborts it.
pub const CHASE_TIMEOUT_MS: u64 = 5000;

/// A bounded retry: up to `attempts` tries, `interval_ms` apart.
#[derive(Clone, Copy, PartialEq, Eq, Structural, Debug)]
pub struct RetryPolicy {
    pub attempts: u32,
    pub interval_ms: u64,
}

impl RetryPolicy {
    /// Whether try number `attempt` (counting from 0) is still within the
    /// budget.
    pub fn allows(&self, attempt: u32) -> (r: bool)
        ensures
            r == (attempt < self.attempts),
    {
        attempt < self.attempts
    }
}

/// The teardown policy for closing the pumpkin window: 24 tries, 16 ms
/// apart.
pub fn close_retry_policy() -> (p: RetryPolicy)
    ensures
        p.attempts == 24,
        p.interval_ms == 16,
{
    RetryPolicy { attempts: 24, interval_ms: 16 }
}

} // verus!
