//! The messages that flow through the worker.
//!
//! [`WebhookQueueMessage`] is a delivery request as it arrives from the queue;
//! [`WebhookLog`] is the record of its terminal outcome. Each has a model made
//! of sequences, which is what the contracts of this crate speak about.

use crate::json::{items_model, JsonModel, JsonValue};
use vstd::prelude::*;

verus! {

/// The model of an optional string.
pub open spec fn text_model(text: Option<String>) -> Option<Seq<char>> {
    match text {
        Some(t) => Some(t@),
        None => None,
    }
}

/// The model of a list of string pairs.
pub open spec fn pairs_model(pairs: Seq<(String, String)>) -> Seq<(Seq<char>, Seq<char>)> {
    Seq::new(pairs.len(), |i: int| (pairs[i].0@, pairs[i].1@))
}

/// The model of an optional list of string pairs.
pub open spec fn optional_pairs_model(pairs: Option<Vec<(String, String)>>) -> Option<
    Seq<(Seq<char>, Seq<char>)>,
> {
    match pairs {
        Some(p) => Some(pairs_model(p@)),
        None => None,
    }
}

/// Whether some pair of the list has this key.
pub open spec fn has_key(pairs: Seq<(Seq<char>, Seq<char>)>, key: Seq<char>) -> bool {
    exists|i: int| 0 <= i < pairs.len() && (#[trigger] pairs[i]).0 == key
}

/// No key occurs in two pairs of the list: the list is a mapping.
pub open spec fn distinct_keys(pairs: Seq<(Seq<char>, Seq<char>)>) -> bool {
    forall|i: int, j: int|
        0 <= i < j < pairs.len() ==> (#[trigger] pairs[i]).0 != (#[trigger] pairs[j]).0
}

/// The body that is posted to the webhook target.
#[derive(Debug, PartialEq, Eq)]
pub struct WebhookPayload {
    pub success: bool,
    /// Sent as `type`.
    pub event_type: String,
    /// Sent as `webhookId`.
    pub webhook_id: String,
    pub id: Option<String>,
    /// Sent as `jobId`.
    pub job_id: Option<String>,
    pub data: Vec<JsonValue>,
    pub error: Option<String>,
    /// A string-to-string mapping, held as pairs with distinct keys.
    pub metadata: Option<Vec<(String, String)>>,
}

/// The model of a [`WebhookPayload`].
pub struct WebhookPayloadModel {
    pub success: bool,
    pub event_type: Seq<char>,
    pub webhook_id: Seq<char>,
    pub id: Option<Seq<char>>,
    pub job_id: Option<Seq<char>>,
    pub data: Seq<JsonModel>,
    pub error: Option<Seq<char>>,
    pub metadata: Option<Seq<(Seq<char>, Seq<char>)>>,
}

impl View for WebhookPayload {
    type V = WebhookPayloadModel;

    open spec fn view(&self) -> WebhookPayloadModel {
        WebhookPayloadModel {
            success: self.success,
            event_type: self.event_type@,
            webhook_id: self.webhook_id@,
            id: text_model(self.id),
            job_id: text_model(self.job_id),
            data: items_model(self.data@),
            error: text_model(self.error),
            metadata: optional_pairs_model(self.metadata),
        }
    }
}

impl WebhookPayloadModel {
    /// The metadata, where present, has distinct keys.
    pub open spec fn wf(self) -> bool {
        self.metadata matches Some(pairs) ==> distinct_keys(pairs)
    }
}

/// A delivery request, decoded from one queue message.
#[derive(Debug, PartialEq, Eq)]
pub struct WebhookQueueMessage {
    /// The target URL.
    pub webhook_url: String,
    pub payload: WebhookPayload,
    /// Request headers: a mapping, held as pairs with distinct keys.
    pub headers: Vec<(String, String)>,
    /// The owning tenant.
    pub team_id: String,
    pub job_id: String,
    /// The sub-job, where there is one.
    pub scrape_id: Option<String>,
    /// The event name.
    pub event: String,
    /// The per-attempt timeout in milliseconds, above zero.
    pub timeout_ms: u64,
    /// How many retries have been made for this request.
    pub retry_count: u32,
}

/// The model of a [`WebhookQueueMessage`].
pub struct WebhookQueueMessageModel {
    pub webhook_url: Seq<char>,
    pub payload: WebhookPayloadModel,
    pub headers: Seq<(Seq<char>, Seq<char>)>,
    pub team_id: Seq<char>,
    pub job_id: Seq<char>,
    pub scrape_id: Option<Seq<char>>,
    pub event: Seq<char>,
    pub timeout_ms: u64,
    pub retry_count: u32,
}

impl View for WebhookQueueMessage {
    type V = WebhookQueueMessageModel;

    open spec fn view(&self) -> WebhookQueueMessageModel {
        WebhookQueueMessageModel {
            webhook_url: self.webhook_url@,
            payload: self.payload@,
            headers: pairs_model(self.headers@),
            team_id: self.team_id@,
            job_id: self.job_id@,
            scrape_id: text_model(self.scrape_id),
            event: self.event@,
            timeout_ms: self.timeout_ms,
            retry_count: self.retry_count,
        }
    }
}

impl WebhookQueueMessageModel {
    /// The request is well formed: its headers and its payload's metadata
    /// are mappings, and its timeout is positive.
    pub open spec fn wf(self) -> bool {
        &&& distinct_keys(self.headers)
        &&& self.payload.wf()
        &&& self.timeout_ms > 0
    }
}

/// The record of a request's terminal outcome, as sent to the log store.
#[derive(Debug, PartialEq, Eq)]
pub struct WebhookLog {
    pub success: bool,
    pub error: Option<String>,
    pub team_id: String,
    /// The job that the webhook reports on.
    pub crawl_id: String,
    pub scrape_id: Option<String>,
    /// The target URL.
    pub url: String,
    /// The HTTP status of the last attempt, absent when no response arrived.
    pub status_code: Option<i32>,
    pub event: String,
}

/// The model of a [`WebhookLog`].
pub struct WebhookLogModel {
    pub success: bool,
    pub error: Option<Seq<char>>,
    pub team_id: Seq<char>,
    pub crawl_id: Seq<char>,
    pub scrape_id: Option<Seq<char>>,
    pub url: Seq<char>,
    pub status_code: Option<i32>,
    pub event: Seq<char>,
}

impl View for WebhookLog {
    type V = WebhookLogModel;

    open spec fn view(&self) -> WebhookLogModel {
        WebhookLogModel {
            success: self.success,
            error: text_model(self.error),
            team_id: self.team_id@,
            crawl_id: self.crawl_id@,
            scrape_id: text_model(self.scrape_id),
            url: self.url@,
            status_code: self.status_code,
            event: self.event@,
        }
    }
}

/// Copies an optional string.
pub fn clone_text(text: &Option<String>) -> (copy: Option<String>)
    ensures
        text_model(copy) == text_model(*text),
{
    match text {
        Some(t) => Some(t.clone()),
        None => None,
    }
}

/// Copies a list of string pairs.
pub fn clone_pairs(pairs: &Vec<(String, String)>) -> (copy: Vec<(String, String)>)
    ensures
        pairs_model(copy@) == pairs_model(pairs@),
{
    let mut copy: Vec<(String, String)> = Vec::new();
    let mut i: usize = 0;
    while i < pairs.len()
        invariant
            i <= pairs.len(),
            copy.len() == i,
            forall|j: int|
                0 <= j < i ==> copy@[j].0@ == pairs@[j].0@ && copy@[j].1@ == pairs@[j].1@,
        decreases pairs.len() - i,
    {
        let key = pairs[i].0.clone();
        let value = pairs[i].1.clone();
        copy.push((key, value));
        i += 1;
    }
    assert(pairs_model(copy@) =~= pairs_model(pairs@));
    copy
}

/// Whether some pair of the list has this key.
pub fn contains_key(pairs: &Vec<(String, String)>, key: &String) -> (found: bool)
    ensures
        found == has_key(pairs_model(pairs@), key@),
{
    let ghost model = pairs_model(pairs@);
    let mut i: usize = 0;
    while i < pairs.len()
        invariant
            i <= pairs.len(),
            model == pairs_model(pairs@),
            forall|j: int| 0 <= j < i ==> (#[trigger] model[j]).0 != key@,
        decreases pairs.len() - i,
    {
        if pairs[i].0 == *key {
            assert(model[i as int].0 == key@);
            return true;
        }
        i += 1;
    }
    false
}

impl Clone for WebhookPayload {
    /// A deep copy with the same model.
    fn clone(&self) -> (copy: Self)
        ensures
            copy@ == self@,
    {
        WebhookPayload {
            success: self.success,
            event_type: self.event_type.clone(),
            webhook_id: self.webhook_id.clone(),
            id: clone_text(&self.id),
            job_id: clone_text(&self.job_id),
            data: crate::json::clone_items(&self.data),
            error: clone_text(&self.error),
            metadata: match &self.metadata {
                Some(pairs) => Some(clone_pairs(pairs)),
                None => None,
            },
        }
    }
}

impl Clone for WebhookQueueMessage {
    /// A deep copy with the same model.
    fn clone(&self) -> (copy: Self)
        ensures
            copy@ == self@,
    {
        WebhookQueueMessage {
            webhook_url: self.webhook_url.clone(),
            payload: self.payload.clone(),
            headers: clone_pairs(&self.headers),
            team_id: self.team_id.clone(),
            job_id: self.job_id.clone(),
            scrape_id: clone_text(&self.scrape_id),
            event: self.event.clone(),
            timeout_ms: self.timeout_ms,
            retry_count: self.retry_count,
        }
    }
}

impl Clone for WebhookLog {
    /// A copy with the same model.
    fn clone(&self) -> (copy: Self)
        ensures
            copy@ == self@,
    {
        WebhookLog {
            success: self.success,
            error: clone_text(&self.error),
            team_id: self.team_id.clone(),
            crawl_id: self.crawl_id.clone(),
            scrape_id: clone_text(&self.scrape_id),
            url: self.url.clone(),
            status_code: self.status_code,
            event: self.event.clone(),
        }
    }
}

} // verus!
