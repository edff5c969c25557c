//! The retry policy of an upload: how many attempts a batch gets, and how long
//! to wait before each further one.
//!
//! Intervals are whole nanoseconds. The backoff multiplier is held in
//! thousandths, so that `2000` doubles the interval after every failure.

use vstd::prelude::*;

verus! {

/// Thousandths in one: the scale of `RetryPolicy::multiplier_milli`.
pub const MILLI: u32 = 1000;

/// Retry configuration that applies to each encoded batch.
#[derive(Debug, Clone, Copy, PartialEq, Eq, Structural)]
pub struct RetryPolicy {
    /// Number of attempts that a batch gets, the first one included. Zero
    /// counts as one.
    pub max_retries: u32,
    /// Wait before the second attempt, in nanoseconds.
    pub initial_interval: u64,
    /// Longest wait between two attempts, in nanoseconds. Zero sets no bound.
    pub max_interval: u64,
    /// Factor, in thousandths, by which the wait grows after each failure.
    pub multiplier_milli: u32,
    /// Whether a failed attempt is retried at all.
    pub enabled: bool,
}

/// One attempt of an upload.
#[derive(Debug, Clone, Copy, PartialEq, Eq, Structural)]
pub struct UploadAttempt {
    /// Number of the attempt; the first is 1.
    pub number: u32,
    /// Wait, in nanoseconds, that follows if this attempt fails and another is
    /// due.
    pub delay: u64,
}

/// What follows a failed attempt.
#[derive(Debug, Clone, Copy, PartialEq, Eq, Structural)]
pub enum RetryDecision {
    /// Wait `wait` nanoseconds, not at all where it is zero, then make the
    /// attempt `next`.
    Retry { wait: u64, next: UploadAttempt },
    /// No attempt is left: the failure is final.
    GiveUp,
}

impl Default for RetryPolicy {
    /// Three attempts, 100 ms before the second, doubling up to 5 s.
    fn default() -> (policy: RetryPolicy)
        ensures
            policy == (RetryPolicy {
                max_retries: 3,
                initial_interval: 100_000_000,
                max_interval: 5_000_000_000,
                multiplier_milli: 2000,
                enabled: true,
            }),
    {
        RetryPolicy {
            max_retries: 3,
            initial_interval: 100_000_000,
            max_interval: 5_000_000_000,
            multiplier_milli: 2000,
            enabled: true,
        }
    }
}

impl RetryPolicy {
    /// Number of attempts that a batch gets: `max_retries`, at least one, where
    /// retries are enabled, and one where they are not.
    pub open spec fn spec_max_attempts(self) -> u32 {
        if self.enabled && self.max_retries > 1 {
            self.max_retries
        } else {
            1
        }
    }

    /// The wait that follows a wait of `delay`: `delay` times the multiplier,
    /// rounded down, at most `u64::MAX`, and at most `max_interval` where that
    /// is not zero.
    pub open spec fn spec_next_delay(self, delay: u64) -> u64 {
        let scaled = delay * self.multiplier_milli / (MILLI as int);
        let fitted = if scaled > u64::MAX {
            u64::MAX
        } else {
            scaled as u64
        };
        if self.max_interval != 0 && fitted > self.max_interval {
            self.max_interval
        } else {
            fitted
        }
    }

    /// The wait that follows the failure of attempt number `failures`, were
    /// another attempt due: `initial_interval` after the first failure, and
    /// the wait that follows the previous one after each further failure.
    pub open spec fn backoff(self, failures: nat) -> u64
        decreases failures,
    {
        if failures <= 1 {
            self.initial_interval
        } else {
            self.spec_next_delay(self.backoff((failures - 1) as nat))
        }
    }

    /// Attempt number `number`, with the wait that its failure is followed by.
    pub open spec fn attempt(self, number: u32) -> UploadAttempt {
        UploadAttempt { number, delay: self.backoff(number as nat) }
    }

    /// What follows a failure of `attempt`.
    pub open spec fn spec_after_failure(self, attempt: UploadAttempt) -> RetryDecision {
        if attempt.number >= self.spec_max_attempts() {
            RetryDecision::GiveUp
        } else {
            RetryDecision::Retry {
                wait: attempt.delay,
                next: UploadAttempt {
                    number: (attempt.number + 1) as u32,
                    delay: self.spec_next_delay(attempt.delay),
                },
            }
        }
    }

    /// Returns the number of attempts that a batch gets.
    pub fn max_attempts(&self) -> (attempts: u32)
        ensures
            attempts == self.spec_max_attempts(),
    {
        if self.enabled && self.max_retries > 1 {
            self.max_retries
        } else {
            1
        }
    }

    /// Returns the wait that follows a wait of `delay`.
    pub fn next_delay(&self, delay: u64) -> (next: u64)
        ensures
            next == self.spec_next_delay(delay),
    {
        assert(delay * self.multiplier_milli <= u64::MAX * u32::MAX) by (nonlinear_arith)
            requires
                0 <= delay <= u64::MAX,
                0 <= self.multiplier_milli <= u32::MAX,
        ;
        let scaled: u128 = (delay as u128) * (self.multiplier_milli as u128) / (MILLI as u128);
        let fitted: u64 = if scaled > u64::MAX as u128 {
            u64::MAX
        } else {
            scaled as u64
        };
        if self.max_interval != 0 && fitted > self.max_interval {
            self.max_interval
        } else {
            fitted
        }
    }

    /// Returns the first attempt of an upload.
    pub fn first_attempt(&self) -> (attempt: UploadAttempt)
        ensures
            attempt == self.attempt(1),
    {
        UploadAttempt { number: 1, delay: self.initial_interval }
    }

    /// Decides what follows a failure of `attempt`: another attempt while
    /// fewer than `max_attempts` were made, and none after that.
    pub fn after_failure(&self, attempt: UploadAttempt) -> (decision: RetryDecision)
        ensures
            decision == self.spec_after_failure(attempt),
    {
        if attempt.number >= self.max_attempts() {
            RetryDecision::GiveUp
        } else {
            RetryDecision::Retry {
                wait: attempt.delay,
                next: UploadAttempt {
                    number: attempt.number + 1,
                    delay: self.next_delay(attempt.delay),
                },
            }
        }
    }
}

/// A failure of attempt `number` is followed by attempt `number + 1` after the
/// wait `backoff(number)` while `number` is below the policy's number of
/// attempts, and is final from then on.
pub proof fn lemma_attempts_follow_backoff(policy: RetryPolicy, number: u32)
    requires
        number >= 1,
    ensures
        number < policy.spec_max_attempts() ==> policy.spec_after_failure(policy.attempt(number))
            == (RetryDecision::Retry {
            wait: policy.backoff(number as nat),
            next: policy.attempt((number + 1) as u32),
        }),
        number >= policy.spec_max_attempts() ==> policy.spec_after_failure(policy.attempt(number))
            == RetryDecision::GiveUp,
{
    if number < policy.spec_max_attempts() {
        assert(policy.backoff((number + 1) as nat) == policy.spec_next_delay(
            policy.backoff(number as nat),
        ));
    }
}

/// Where retries are disabled, or `max_retries` is zero, the first failure is
/// final, whatever the rest of the policy says.
pub proof fn lemma_single_attempt(policy: RetryPolicy)
    requires
        !policy.enabled || policy.max_retries == 0,
    ensures
        policy.spec_max_attempts() == 1,
        policy.spec_after_failure(policy.attempt(1)) == RetryDecision::GiveUp,
{
}

/// Under a policy whose `max_interval` is not zero, no wait after the first
/// exceeds `max_interval`.
pub proof fn lemma_wait_is_capped(policy: RetryPolicy, failures: nat)
    requires
        policy.max_interval != 0,
        failures >= 2,
    ensures
        policy.backoff(failures) <= policy.max_interval,
{
}

/// Under a policy that sets no bound, whose multiplier is at least one, no wait
/// is shorter than the one before it.
pub proof fn lemma_wait_grows(policy: RetryPolicy, failures: nat)
    requires
        policy.max_interval == 0,
        policy.multiplier_milli >= MILLI,
        failures >= 1,
    ensures
        policy.backoff(failures) <= policy.backoff(failures + 1),
{
    let delay = policy.backoff(failures);
    assert(policy.backoff(failures + 1) == policy.spec_next_delay(delay));
    assert(delay * policy.multiplier_milli >= delay * 1000) by (nonlinear_arith)
        requires
            delay >= 0,
            policy.multiplier_milli >= 1000,
    ;
    assert(delay * 1000 / 1000 == delay) by (nonlinear_arith);
    assert(delay * policy.multiplier_milli / 1000 >= delay * 1000 / 1000) by (nonlinear_arith)
        requires
            delay * policy.multiplier_milli >= delay * 1000,
    ;
}

} // verus!
