//! Classification of a single delivery attempt.
//!
//! The caller performs one HTTP POST and reports what happened as an
//! [`AttemptResult`]; [`classify`] turns it into the [`AttemptOutcome`] that
//! the retry policy consumes.

use crate::text::{decimal_text, render_unsigned};
use vstd::prelude::*;
use vstd::string::StringExecFns;

verus! {

/// What one HTTP POST attempt produced, as observed by the caller.
#[derive(Debug, Clone, Copy, PartialEq, Eq, Structural)]
pub enum AttemptResult {
    /// A response arrived with this status code.
    Response(u16),
    /// No response arrived within the per-attempt timeout.
    TimedOut,
    /// The connection could not be established or broke.
    ConnectionFailed,
    /// The target host name could not be resolved.
    DnsFailed,
}

/// Why an attempt did not deliver.
#[derive(Debug, Clone, Copy, PartialEq, Eq, Structural)]
pub enum FailureReason {
    /// The target answered with this non-success status code.
    Status(u16),
    /// The per-attempt timeout expired.
    Timeout,
    /// The connection could not be established or broke.
    Connection,
    /// The target host name could not be resolved.
    Dns,
}

/// The classified outcome of one attempt.
#[derive(Debug, Clone, Copy, PartialEq, Eq, Structural)]
pub enum AttemptOutcome {
    /// The target accepted the delivery with this status code.
    Delivered(u16),
    /// The attempt failed in a way that may succeed on retry.
    TransientFailure(FailureReason),
    /// The attempt failed in a way that an identical retry will not improve.
    PermanentFailure(FailureReason),
}

/// A status code in the success range `[200, 300)`.
pub open spec fn is_success_status(status: u16) -> bool {
    200 <= status < 300
}

/// A status code that is worth retrying: 408, 429 and `[500, 600)`.
pub open spec fn is_transient_status(status: u16) -> bool {
    status == 408 || status == 429 || 500 <= status < 600
}

/// The HTTP status carried by a failure reason, if it has one.
pub open spec fn reason_status(reason: FailureReason) -> Option<u16> {
    match reason {
        FailureReason::Status(status) => Some(status),
        _ => None,
    }
}

/// The text of a failure reason, as it is logged.
pub open spec fn reason_text(reason: FailureReason) -> Seq<char> {
    match reason {
        FailureReason::Status(status) => "HTTP status "@ + decimal_text(status as nat),
        FailureReason::Timeout => "request timed out"@,
        FailureReason::Connection => "connection failed"@,
        FailureReason::Dns => "DNS resolution failed"@,
    }
}

/// The reason text of an outcome, absent on a delivery.
pub open spec fn outcome_error(outcome: AttemptOutcome) -> Option<Seq<char>> {
    match outcome {
        AttemptOutcome::Delivered(_) => None,
        AttemptOutcome::TransientFailure(reason) => Some(reason_text(reason)),
        AttemptOutcome::PermanentFailure(reason) => Some(reason_text(reason)),
    }
}

/// The HTTP status carried by an outcome, absent on connection-level failures.
pub open spec fn outcome_status(outcome: AttemptOutcome) -> Option<u16> {
    match outcome {
        AttemptOutcome::Delivered(status) => Some(status),
        AttemptOutcome::TransientFailure(reason) => reason_status(reason),
        AttemptOutcome::PermanentFailure(reason) => reason_status(reason),
    }
}

/// The outcome that an attempt result is classified as.
///
/// Success statuses deliver; timeouts, connection and DNS failures and the
/// retryable statuses are transient; every other status is permanent.
pub open spec fn classify_spec(result: AttemptResult) -> AttemptOutcome {
    match result {
        AttemptResult::Response(status) => if is_success_status(status) {
            AttemptOutcome::Delivered(status)
        } else if is_transient_status(status) {
            AttemptOutcome::TransientFailure(FailureReason::Status(status))
        } else {
            AttemptOutcome::PermanentFailure(FailureReason::Status(status))
        },
        AttemptResult::TimedOut => AttemptOutcome::TransientFailure(FailureReason::Timeout),
        AttemptResult::ConnectionFailed => AttemptOutcome::TransientFailure(
            FailureReason::Connection,
        ),
        AttemptResult::DnsFailed => AttemptOutcome::TransientFailure(FailureReason::Dns),
    }
}

/// Classifies the result of one attempt.
pub fn classify(result: AttemptResult) -> (outcome: AttemptOutcome)
    ensures
        outcome == classify_spec(result),
{
    match result {
        AttemptResult::Response(status) => {
            if 200 <= status && status < 300 {
                AttemptOutcome::Delivered(status)
            } else if status == 408 || status == 429 || (500 <= status && status < 600) {
                AttemptOutcome::TransientFailure(FailureReason::Status(status))
            } else {
                AttemptOutcome::PermanentFailure(FailureReason::Status(status))
            }
        },
        AttemptResult::TimedOut => AttemptOutcome::TransientFailure(FailureReason::Timeout),
        AttemptResult::ConnectionFailed => AttemptOutcome::TransientFailure(
            FailureReason::Connection,
        ),
        AttemptResult::DnsFailed => AttemptOutcome::TransientFailure(FailureReason::Dns),
    }
}

impl FailureReason {
    /// The reason as text for the log.
    pub fn message(&self) -> (text: String)
        ensures
            text@ == reason_text(*self),
    {
        match self {
            FailureReason::Status(status) => {
                let mut text = "HTTP status ".to_owned();
                let code = render_unsigned(*status as u64);
                text.append(code.as_str());
                text
            },
            FailureReason::Timeout => "request timed out".to_owned(),
            FailureReason::Connection => "connection failed".to_owned(),
            FailureReason::Dns => "DNS resolution failed".to_owned(),
        }
    }
}

impl AttemptOutcome {
    /// The reason text of this outcome, absent on a delivery.
    pub fn error_message(&self) -> (text: Option<String>)
        ensures
            crate::models::text_model(text) == outcome_error(*self),
    {
        match self {
            AttemptOutcome::Delivered(_) => None,
            AttemptOutcome::TransientFailure(reason) => Some(reason.message()),
            AttemptOutcome::PermanentFailure(reason) => Some(reason.message()),
        }
    }

    /// The HTTP status of this outcome, if a response arrived.
    pub fn status_code(&self) -> (status: Option<u16>)
        ensures
            status == outcome_status(*self),
    {
        match self {
            AttemptOutcome::Delivered(status) => Some(*status),
            AttemptOutcome::TransientFailure(FailureReason::Status(status)) => Some(*status),
            AttemptOutcome::PermanentFailure(FailureReason::Status(status)) => Some(*status),
            _ => None,
        }
    }

    /// Whether this outcome is a delivery.
    pub fn is_delivered(&self) -> (delivered: bool)
        ensures
            delivered == (*self is Delivered),
    {
        match self {
            AttemptOutcome::Delivered(_) => true,
            _ => false,
        }
    }
}

} // verus!
