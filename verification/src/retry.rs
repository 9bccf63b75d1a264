//! The retry-forever access pattern for the control service.
//!
//! The scheduler cannot make progress without the control service, so a
//! failed request is never surfaced: the driver waits a fixed interval
//! and tries again. The policy is an explicit value — interval and a
//! bounded or unbounded attempt count — so a test can substitute a
//! bounded policy instead of blocking forever.

use vstd::prelude::*;

verus! {

/// What the driver must do after an attempt.
#[derive(Clone, Copy, PartialEq, Eq, Structural, Debug)]
pub enum RetryDecision {
    /// The attempt succeeded: hand the result to the caller.
    Accept,
    /// The attempt failed: log it, sleep for the interval, try again.
    RetryAfter(u64),
    /// The attempt failed and the bounded policy is exhausted.
    GiveUp,
}

/// A retry policy: the fixed interval between attempts, and how many
/// attempts may be made in all (`None` retries forever).
pub struct RetryPolicy {
    pub interval_ms: u64,
    pub max_attempts: Option<u64>,
}

impl RetryPolicy {
    /// The production policy: retry every half second, forever.
    pub fn forever() -> (p: RetryPolicy)
        ensures
            p.interval_ms == 500,
            p.max_attempts is None,
    {
        RetryPolicy { interval_ms: 500, max_attempts: None }
    }

    /// Decides what to do once `attempts_made` attempts have run and the
    /// last one succeeded (`succeeded`) or failed.
    ///
    /// A success is always accepted. A failure is retried after the fixed
    /// interval, unless the policy is bounded and `attempts_made` has
    /// reached the bound.
    pub fn decide(&self, succeeded: bool, attempts_made: u64) -> (d: RetryDecision)
        ensures
            succeeded ==> d is Accept,
            !succeeded ==> match self.max_attempts {
                None => d == RetryDecision::RetryAfter(self.interval_ms),
                Some(max) => {
                    &&& attempts_made < max ==> d == RetryDecision::RetryAfter(self.interval_ms)
                    &&& attempts_made >= max ==> d is GiveUp
                },
            },
    {
        if succeeded {
            RetryDecision::Accept
        } else {
            match self.max_attempts {
                None => RetryDecision::RetryAfter(self.interval_ms),
                Some(max) => {
                    if attempts_made < max {
                        RetryDecision::RetryAfter(self.interval_ms)
                    } else {
                        RetryDecision::GiveUp
                    }
                },
            }
        }
    }
}

} // verus!
