//! The life of one queue message, as a state machine.
//!
//! A worker owns one message from its arrival to its acknowledgment. It
//! never performs an effect itself: [`start`] and [`step`] return the
//! [`WorkerAction`] that the caller is to perform, and the caller reports
//! what came of it as the next [`WorkerEvent`]. Attempts are therefore
//! strictly sequential: the next one is asked for only in answer to the
//! event that ends the previous one.

use crate::decoder::{decode_document, decode_message, DecodeError};
use crate::delivery::{classify, classify_spec, AttemptResult};
use crate::logger::{log_entry, log_entry_spec};
use crate::models::{
    WebhookLog, WebhookLogModel, WebhookQueueMessage, WebhookQueueMessageModel,
};
use crate::parse::parsed_document;
use crate::retry::{decide_spec, RetryDecision, RetryPolicy};
use vstd::prelude::*;

verus! {

/// How a request ended.
#[derive(Debug, Clone, Copy, PartialEq, Eq, Structural)]
pub enum Terminal {
    /// An attempt delivered.
    Success,
    /// An attempt failed permanently, or the attempts are used up.
    Failure,
}

/// Where a message stands.
#[derive(Debug, PartialEq, Eq)]
pub enum WorkerState {
    /// An attempt for the request is in flight.
    Attempting(WebhookQueueMessage),
    /// The delay before the request's next attempt is running.
    Waiting(WebhookQueueMessage),
    /// The request has ended and its log record is being persisted.
    Logging(Terminal),
    /// The message has been acknowledged.
    Acknowledged(Terminal),
    /// The message was malformed and has been rejected.
    Rejected,
}

/// The model of a [`WorkerState`].
pub enum WorkerStateModel {
    Attempting(WebhookQueueMessageModel),
    Waiting(WebhookQueueMessageModel),
    Logging(Terminal),
    Acknowledged(Terminal),
    Rejected,
}

impl View for WorkerState {
    type V = WorkerStateModel;

    open spec fn view(&self) -> WorkerStateModel {
        match self {
            WorkerState::Attempting(request) => WorkerStateModel::Attempting(request@),
            WorkerState::Waiting(request) => WorkerStateModel::Waiting(request@),
            WorkerState::Logging(terminal) => WorkerStateModel::Logging(*terminal),
            WorkerState::Acknowledged(terminal) => WorkerStateModel::Acknowledged(*terminal),
            WorkerState::Rejected => WorkerStateModel::Rejected,
        }
    }
}

/// What the caller reports back.
#[derive(Debug, Clone, Copy, PartialEq, Eq, Structural)]
pub enum WorkerEvent {
    /// The attempt that was asked for has ended with this result.
    AttemptFinished(AttemptResult),
    /// The wait that was asked for is over.
    WaitElapsed,
    /// The log store has answered; `persisted` tells whether it took the
    /// record.
    LogFinished { persisted: bool },
}

/// What the caller is to do next.
#[derive(Debug, PartialEq, Eq)]
pub enum WorkerAction {
    /// Post the request held in the state, within its timeout.
    Attempt,
    /// Wait this many milliseconds without holding up other messages.
    Wait(u64),
    /// Send this record to the log store.
    WriteLog(WebhookLog),
    /// Acknowledge the queue message.
    Acknowledge,
    /// Reject the queue message without redelivery.
    Reject,
    /// The event does not belong to the state; nothing is to be done.
    Nothing,
}

/// The model of a [`WorkerAction`].
pub enum WorkerActionModel {
    Attempt,
    Wait(u64),
    WriteLog(WebhookLogModel),
    Acknowledge,
    Reject,
    Nothing,
}

impl View for WorkerAction {
    type V = WorkerActionModel;

    open spec fn view(&self) -> WorkerActionModel {
        match self {
            WorkerAction::Attempt => WorkerActionModel::Attempt,
            WorkerAction::Wait(ms) => WorkerActionModel::Wait(*ms),
            WorkerAction::WriteLog(entry) => WorkerActionModel::WriteLog(entry@),
            WorkerAction::Acknowledge => WorkerActionModel::Acknowledge,
            WorkerAction::Reject => WorkerActionModel::Reject,
            WorkerAction::Nothing => WorkerActionModel::Nothing,
        }
    }
}

/// The model of a decoding result.
pub open spec fn decoded_model(decoded: Result<WebhookQueueMessage, DecodeError>) -> Option<
    WebhookQueueMessageModel,
> {
    match decoded {
        Ok(message) => Some(message@),
        Err(_) => None,
    }
}

/// The request with its retry count replaced.
pub open spec fn with_retry_count(
    request: WebhookQueueMessageModel,
    retry_count: u32,
) -> WebhookQueueMessageModel {
    WebhookQueueMessageModel { retry_count, ..request }
}

/// The request that a state holds: the one being delivered.
pub open spec fn held_request(state: WorkerStateModel) -> Option<WebhookQueueMessageModel> {
    match state {
        WorkerStateModel::Attempting(request) => Some(request),
        WorkerStateModel::Waiting(request) => Some(request),
        _ => None,
    }
}

/// A message that needs no further event: it has been acknowledged or
/// rejected.
pub open spec fn is_finished(state: WorkerStateModel) -> bool {
    state is Acknowledged || state is Rejected
}

/// How a message begins: a decoded request is attempted at once, a
/// malformed message is rejected and never enters the retry machine.
pub open spec fn start_spec(decoded: Option<WebhookQueueMessageModel>) -> (
    WorkerStateModel,
    WorkerActionModel,
) {
    match decoded {
        Some(request) => (WorkerStateModel::Attempting(request), WorkerActionModel::Attempt),
        None => (WorkerStateModel::Rejected, WorkerActionModel::Reject),
    }
}

/// The transition that an event causes, and the action that it asks for.
///
/// - The end of an attempt is classified and put to the retry policy: a
///   terminal decision writes the log record, a retry starts the wait with
///   the retry count raised.
/// - The end of the wait starts the next attempt.
/// - The log store's answer, whichever it is, acknowledges the message.
/// - Any other event leaves the state as it is.
pub open spec fn step_spec(
    state: WorkerStateModel,
    event: WorkerEvent,
    policy: RetryPolicy,
) -> (WorkerStateModel, WorkerActionModel) {
    match (state, event) {
        (WorkerStateModel::Attempting(request), WorkerEvent::AttemptFinished(result)) => {
            let outcome = classify_spec(result);
            match decide_spec(policy, request.retry_count, outcome) {
                RetryDecision::TerminalSuccess => (
                    WorkerStateModel::Logging(Terminal::Success),
                    WorkerActionModel::WriteLog(log_entry_spec(request, outcome)),
                ),
                RetryDecision::TerminalFailure => (
                    WorkerStateModel::Logging(Terminal::Failure),
                    WorkerActionModel::WriteLog(log_entry_spec(request, outcome)),
                ),
                RetryDecision::Retry { retry_count, wait_ms } => (
                    WorkerStateModel::Waiting(with_retry_count(request, retry_count)),
                    WorkerActionModel::Wait(wait_ms),
                ),
            }
        },
        (WorkerStateModel::Waiting(request), WorkerEvent::WaitElapsed) => (
            WorkerStateModel::Attempting(request),
            WorkerActionModel::Attempt,
        ),
        (WorkerStateModel::Logging(terminal), WorkerEvent::LogFinished { .. }) => (
            WorkerStateModel::Acknowledged(terminal),
            WorkerActionModel::Acknowledge,
        ),
        _ => (state, WorkerActionModel::Nothing),
    }
}

/// Begins the life of a message whose decoding gave `decoded`.
pub fn start_decoded(decoded: Result<WebhookQueueMessage, DecodeError>) -> (begun: (
    WorkerState,
    WorkerAction,
))
    ensures
        (begun.0@, begun.1@) == start_spec(decoded_model(decoded)),
{
    match decoded {
        Ok(request) => (WorkerState::Attempting(request), WorkerAction::Attempt),
        Err(_) => (WorkerState::Rejected, WorkerAction::Reject),
    }
}

/// Begins the life of a message: decodes its bytes and asks for the first
/// attempt, or for the rejection of a malformed message.
pub fn start(bytes: &[u8]) -> (begun: (WorkerState, WorkerAction))
    ensures
        (begun.0@, begun.1@) == start_spec(decode_document(parsed_document(bytes@))),
{
    start_decoded(decode_message(bytes))
}

/// Advances a message by one event.
pub fn step(state: WorkerState, event: WorkerEvent, policy: &RetryPolicy) -> (next: (
    WorkerState,
    WorkerAction,
))
    ensures
        (next.0@, next.1@) == step_spec(state@, event, *policy),
{
    match state {
        WorkerState::Attempting(request) => match event {
            WorkerEvent::AttemptFinished(result) => {
                let outcome = classify(result);
                match policy.decide(request.retry_count, &outcome) {
                    RetryDecision::TerminalSuccess => {
                        let entry = log_entry(&request, &outcome);
                        (WorkerState::Logging(Terminal::Success), WorkerAction::WriteLog(entry))
                    },
                    RetryDecision::TerminalFailure => {
                        let entry = log_entry(&request, &outcome);
                        (WorkerState::Logging(Terminal::Failure), WorkerAction::WriteLog(entry))
                    },
                    RetryDecision::Retry { retry_count, wait_ms } => {
                        let mut request = request;
                        request.retry_count = retry_count;
                        (WorkerState::Waiting(request), WorkerAction::Wait(wait_ms))
                    },
                }
            },
            _ => (WorkerState::Attempting(request), WorkerAction::Nothing),
        },
        WorkerState::Waiting(request) => match event {
            WorkerEvent::WaitElapsed => (WorkerState::Attempting(request), WorkerAction::Attempt),
            _ => (WorkerState::Waiting(request), WorkerAction::Nothing),
        },
        WorkerState::Logging(terminal) => match event {
            WorkerEvent::LogFinished { persisted: _ } => (
                WorkerState::Acknowledged(terminal),
                WorkerAction::Acknowledge,
            ),
            _ => (WorkerState::Logging(terminal), WorkerAction::Nothing),
        },
        WorkerState::Acknowledged(terminal) => (
            WorkerState::Acknowledged(terminal),
            WorkerAction::Nothing,
        ),
        WorkerState::Rejected => (WorkerState::Rejected, WorkerAction::Nothing),
    }
}

impl WorkerState {
    /// The request that is being delivered, while there is one.
    pub fn request(&self) -> (request: Option<&WebhookQueueMessage>)
        ensures
            match request {
                Some(r) => held_request(self@) == Some(r@),
                None => held_request(self@) is None,
            },
    {
        match self {
            WorkerState::Attempting(request) => Some(request),
            WorkerState::Waiting(request) => Some(request),
            _ => None,
        }
    }

    /// Whether the message needs no further event: it has been acknowledged
    /// or rejected.
    pub fn is_finished(&self) -> (finished: bool)
        ensures
            finished == is_finished(self@),
    {
        match self {
            WorkerState::Acknowledged(_) => true,
            WorkerState::Rejected => true,
            _ => false,
        }
    }
}

} // verus!
