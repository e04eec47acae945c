//! The outcome logger: from a request and its terminal outcome to the
//! record that is sent to the log store.
//!
//! Persisting the record is the caller's part; whether that succeeds has no
//! bearing on the acknowledgment of the queue message.

use crate::delivery::{outcome_error, outcome_status, AttemptOutcome};
use crate::models::{clone_text, WebhookLog, WebhookLogModel, WebhookQueueMessage, WebhookQueueMessageModel};
use vstd::prelude::*;

verus! {

/// The status code of an outcome as the log stores it.
pub open spec fn logged_status(outcome: AttemptOutcome) -> Option<i32> {
    match outcome_status(outcome) {
        Some(status) => Some(status as i32),
        None => None,
    }
}

/// The log record of a request that ended with the given outcome.
///
/// The record is a success exactly for a delivery; it carries the reason
/// text exactly for a failure, the status code whenever a response arrived,
/// and the request's tenant, job, sub-job, target URL and event.
pub open spec fn log_entry_spec(
    request: WebhookQueueMessageModel,
    outcome: AttemptOutcome,
) -> WebhookLogModel {
    WebhookLogModel {
        success: outcome is Delivered,
        error: outcome_error(outcome),
        team_id: request.team_id,
        crawl_id: request.job_id,
        scrape_id: request.scrape_id,
        url: request.webhook_url,
        status_code: logged_status(outcome),
        event: request.event,
    }
}

/// Makes the log record of a request's terminal outcome.
pub fn log_entry(request: &WebhookQueueMessage, outcome: &AttemptOutcome) -> (entry: WebhookLog)
    ensures
        entry@ == log_entry_spec(request@, *outcome),
{
    let status_code: Option<i32> = match outcome.status_code() {
        Some(status) => Some(status as i32),
        None => None,
    };
    WebhookLog {
        success: outcome.is_delivered(),
        error: outcome.error_message(),
        team_id: request.team_id.clone(),
        crawl_id: request.job_id.clone(),
        scrape_id: clone_text(&request.scrape_id),
        url: request.webhook_url.clone(),
        status_code,
        event: request.event.clone(),
    }
}

} // verus!
