//! The retry policy shared by every outbound call.

use vstd::prelude::*;

verus! {

/// The retry limit that the announcer runs with.
pub const RETRY_LIMIT: u8 = 10;

/// The seconds that the announcer waits between two attempts.
pub const SLEEP_SECS: u64 = 60;

/// How often a failed remote call is tried again, and how long to wait before each new try.
#[derive(Clone, Copy, Debug, PartialEq, Eq, Structural)]
pub struct RetryPolicy {
    /// Upper bound on the retries; the first attempt is not counted.
    pub max_retries: u8,
    /// Seconds to wait after every failed attempt that is followed by another one.
    pub delay_secs: u64,
}

impl RetryPolicy {
    /// A policy with the given retry limit and fixed delay.
    pub fn new(max_retries: u8, delay_secs: u64) -> (policy: RetryPolicy)
        ensures
            policy == (RetryPolicy { max_retries, delay_secs }),
    {
        RetryPolicy { max_retries, delay_secs }
    }

    /// The policy of the announcer: ten retries, a minute apart.
    pub fn standard() -> (policy: RetryPolicy)
        ensures
            policy == (RetryPolicy { max_retries: 10, delay_secs: 60 }),
    {
        RetryPolicy { max_retries: RETRY_LIMIT, delay_secs: SLEEP_SECS }
    }
}

} // verus!
