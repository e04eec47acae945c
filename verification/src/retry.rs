//! The retry policy: what follows an attempt.
//!
//! A request is retrying until an attempt delivers, fails permanently, or
//! fails transiently with no attempt left. [`RetryPolicy::decide`] makes that
//! decision from the retry count and the outcome alone.

use crate::config::Config;
use crate::delivery::AttemptOutcome;
use vstd::prelude::*;

verus! {

/// The part of the configuration that governs retries.
#[derive(Debug, Clone, Copy, PartialEq, Eq, Structural)]
pub struct RetryPolicy {
    /// The attempt limit of one request.
    pub max_retries: u32,
    /// The fixed wait between two attempts, in milliseconds.
    pub retry_delay_ms: u64,
}

/// What to do after an attempt.
#[derive(Debug, Clone, Copy, PartialEq, Eq, Structural)]
pub enum RetryDecision {
    /// The request was delivered; no further attempt is made.
    TerminalSuccess,
    /// The request has failed for good; no further attempt is made.
    TerminalFailure,
    /// Attempt again after `wait_ms`, with the retry count now `retry_count`.
    Retry { retry_count: u32, wait_ms: u64 },
}

/// The decision that follows an attempt with the given outcome, made when
/// the request's retry count was `retry_count`.
///
/// A delivery ends in success. A permanent failure ends in failure whatever
/// the count. A transient failure ends in failure when one more retry would
/// reach the limit, and otherwise asks for a retry after the fixed delay.
pub open spec fn decide_spec(
    policy: RetryPolicy,
    retry_count: u32,
    outcome: AttemptOutcome,
) -> RetryDecision {
    match outcome {
        AttemptOutcome::Delivered(_) => RetryDecision::TerminalSuccess,
        AttemptOutcome::PermanentFailure(_) => RetryDecision::TerminalFailure,
        AttemptOutcome::TransientFailure(_) => if retry_count + 1 >= policy.max_retries {
            RetryDecision::TerminalFailure
        } else {
            RetryDecision::Retry {
                retry_count: (retry_count + 1) as u32,
                wait_ms: policy.retry_delay_ms,
            }
        },
    }
}

impl RetryPolicy {
    /// The retry policy that a configuration asks for.
    pub fn new(config: &Config) -> (policy: RetryPolicy)
        ensures
            policy.max_retries == config.max_retries,
            policy.retry_delay_ms == config.retry_delay_ms,
    {
        RetryPolicy { max_retries: config.max_retries, retry_delay_ms: config.retry_delay_ms }
    }

    /// Decides what follows an attempt.
    pub fn decide(&self, retry_count: u32, outcome: &AttemptOutcome) -> (decision: RetryDecision)
        ensures
            decision == decide_spec(*self, retry_count, *outcome),
    {
        match outcome {
            AttemptOutcome::Delivered(_) => RetryDecision::TerminalSuccess,
            AttemptOutcome::PermanentFailure(_) => RetryDecision::TerminalFailure,
            AttemptOutcome::TransientFailure(_) => {
                if retry_count >= self.max_retries || retry_count + 1 >= self.max_retries {
                    RetryDecision::TerminalFailure
                } else {
                    RetryDecision::Retry {
                        retry_count: retry_count + 1,
                        wait_ms: self.retry_delay_ms,
                    }
                }
            },
        }
    }
}

/// Under one policy the decision is a function of the retry count and the
/// outcome: identical inputs give the identical decision, whenever and
/// however often it is asked.
pub proof fn law_decision_is_repeatable(
    policy: RetryPolicy,
    retry_count: u32,
    outcome: AttemptOutcome,
    again_retry_count: u32,
    again_outcome: AttemptOutcome,
)
    requires
        retry_count == again_retry_count,
        outcome == again_outcome,
    ensures
        decide_spec(policy, retry_count, outcome) == decide_spec(
            policy,
            again_retry_count,
            again_outcome,
        ),
{
}

/// The decision looks at the kind of the outcome only: two transient
/// failures, or two permanent ones, are decided alike whatever their reasons.
pub proof fn law_decision_ignores_reason(
    policy: RetryPolicy,
    retry_count: u32,
    outcome: AttemptOutcome,
    other: AttemptOutcome,
)
    requires
        (outcome is Delivered && other is Delivered) || (outcome is TransientFailure && other
            is TransientFailure) || (outcome is PermanentFailure && other is PermanentFailure),
    ensures
        decide_spec(policy, retry_count, outcome) == decide_spec(policy, retry_count, other),
{
}

/// A retry is asked for only below the limit: the new count is one more
/// than the old and stays under `max_retries`, and the wait is the
/// configured delay.
pub proof fn law_retry_stays_below_limit(
    policy: RetryPolicy,
    retry_count: u32,
    outcome: AttemptOutcome,
)
    ensures
        decide_spec(policy, retry_count, outcome) matches RetryDecision::Retry {
            retry_count: next,
            wait_ms,
        } ==> {
            &&& outcome is TransientFailure
            &&& next == retry_count + 1
            &&& next < policy.max_retries
            &&& wait_ms == policy.retry_delay_ms
        },
{
}

} // verus!
