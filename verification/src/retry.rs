//! A retry strategy: how long to pause before the next attempt, and when
//! to give up. The strategy only decides; whoever runs the loop performs
//! the pauses between attempts.

use vstd::prelude::*;

verus! {

/// The failure of a strategy whose attempt budget is used up.
#[derive(Clone, Copy, Debug, PartialEq, Eq, Structural)]
pub struct RetryExhausted;

/// A pluggable retry strategy: each call either yields the pause, in
/// milliseconds, to take before the next attempt, or gives up.
pub trait RetryStrategy {
    fn execute(&mut self) -> Result<u64, RetryExhausted>;
}

/// A strategy with a fixed pause between attempts and a fixed attempt
/// budget.
pub struct FixedInterval {
    interval_ms: u64,
    attempted_executions: usize,
    max_attempts: usize,
}

impl FixedInterval {
    /// The fixed pause, in milliseconds.
    pub closed spec fn interval(&self) -> u64 {
        self.interval_ms
    }

    /// Attempts made so far.
    pub closed spec fn attempted(&self) -> usize {
        self.attempted_executions
    }

    /// The attempt budget.
    pub closed spec fn max(&self) -> usize {
        self.max_attempts
    }

    pub fn new(interval_ms: u64, max_attempts: usize) -> (r: FixedInterval)
        ensures
            r.interval() == interval_ms,
            r.max() == max_attempts,
            r.attempted() == 0,
    {
        FixedInterval { interval_ms, attempted_executions: 0, max_attempts }
    }

    /// One attempt: fails exactly when the budget is used up, and
    /// otherwise counts the attempt and yields the fixed pause.
    pub fn attempt(&mut self) -> (r: Result<u64, RetryExhausted>)
        ensures
            old(self).attempted() >= old(self).max() ==> r == Err::<u64, RetryExhausted>(
                RetryExhausted,
            ) && *final(self) == *old(self),
            old(self).attempted() < old(self).max() ==> r == Ok::<u64, RetryExhausted>(
                old(self).interval(),
            ) && final(self).attempted() == old(self).attempted() + 1 && final(self).interval()
                == old(self).interval() && final(self).max() == old(self).max(),
    {
        if self.attempted_executions >= self.max_attempts {
            Err(RetryExhausted)
        } else {
            self.attempted_executions = self.attempted_executions + 1;
            Ok(self.interval_ms)
        }
    }
}

impl RetryStrategy for FixedInterval {
    fn execute(&mut self) -> Result<u64, RetryExhausted> {
        self.attempt()
    }
}

} // verus!
