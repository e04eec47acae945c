//! The message decoder: from a queue message's bytes to a delivery request.
//!
//! A message is a JSON object. [`decode_value`] says which objects are
//! delivery requests and which request each one is; everything else is
//! malformed. [`message_from_json`] computes it on a parsed document, and
//! [`decode_message`] starts from the raw bytes.

use crate::json::{clone_items, entries_model, find, member, JsonModel, JsonValue};
use crate::models::{
    contains_key, distinct_keys, has_key, optional_pairs_model, pairs_model, text_model,
    WebhookPayload, WebhookPayloadModel, WebhookQueueMessage, WebhookQueueMessageModel,
};
use crate::parse::{parse_json, parsed_document};
use vstd::prelude::*;

verus! {

/// Why a queue message could not be decoded.
#[derive(Debug, Clone, Copy, PartialEq, Eq, Structural)]
pub enum DecodeError {
    /// The bytes are not a JSON object with the required fields, or a field
    /// has the wrong type.
    MalformedMessage,
}

/// The members of a JSON object.
pub type Members = Seq<(Seq<char>, JsonModel)>;

/// A list of string pairs.
pub type Pairs = Seq<(Seq<char>, Seq<char>)>;

/// The string stored under `key`; `None` when the member is missing or is
/// not a string.
pub open spec fn required_text(members: Members, key: Seq<char>) -> Option<Seq<char>> {
    match member(members, key) {
        Some(JsonModel::String(text)) => Some(text),
        _ => None,
    }
}

/// The string stored under `key`, where the member may be missing or null:
/// `Some(None)` then, `Some(Some(text))` for a string, and `None` for a
/// member of any other type.
pub open spec fn optional_text(members: Members, key: Seq<char>) -> Option<Option<Seq<char>>> {
    match member(members, key) {
        None => Some(None),
        Some(JsonModel::Null) => Some(None),
        Some(JsonModel::String(text)) => Some(Some(text)),
        _ => None,
    }
}

/// The boolean stored under `key`.
pub open spec fn required_bool(members: Members, key: Seq<char>) -> Option<bool> {
    match member(members, key) {
        Some(JsonModel::Bool(b)) => Some(b),
        _ => None,
    }
}

/// The array stored under `key`.
pub open spec fn required_array(members: Members, key: Seq<char>) -> Option<Seq<JsonModel>> {
    match member(members, key) {
        Some(JsonModel::Array(items)) => Some(items),
        _ => None,
    }
}

/// The members of an object as string pairs: `None` when some value is not
/// a string. Pairs keep the members' order; of several members with one key
/// the first stays.
pub open spec fn text_pairs(members: Members) -> Option<Pairs>
    decreases members.len(),
{
    if members.len() == 0 {
        Some(Seq::empty())
    } else {
        match (text_pairs(members.drop_last()), members.last().1) {
            (Some(before), JsonModel::String(value)) => if has_key(before, members.last().0) {
                Some(before)
            } else {
                Some(before.push((members.last().0, value)))
            },
            _ => None,
        }
    }
}

/// The string-to-string mapping stored under `key`.
pub open spec fn required_text_map(members: Members, key: Seq<char>) -> Option<Pairs> {
    match member(members, key) {
        Some(JsonModel::Object(inner)) => text_pairs(inner),
        _ => None,
    }
}

/// The string-to-string mapping stored under `key`, where the member may be
/// missing or null.
pub open spec fn optional_text_map(members: Members, key: Seq<char>) -> Option<Option<Pairs>> {
    match member(members, key) {
        None => Some(None),
        Some(JsonModel::Null) => Some(None),
        Some(JsonModel::Object(inner)) => match text_pairs(inner) {
            Some(pairs) => Some(Some(pairs)),
            None => None,
        },
        _ => None,
    }
}

/// The timeout stored under `key`: a positive integer.
pub open spec fn required_timeout(members: Members, key: Seq<char>) -> Option<u64> {
    match member(members, key) {
        Some(JsonModel::Unsigned(n)) => if n > 0 {
            Some(n)
        } else {
            None
        },
        _ => None,
    }
}

/// The retry count stored under `key`: 0 when the member is missing, and
/// otherwise a non-negative integer that fits 32 bits.
pub open spec fn retry_count_or_zero(members: Members, key: Seq<char>) -> Option<u32> {
    match member(members, key) {
        None => Some(0u32),
        Some(JsonModel::Unsigned(n)) => if n <= u32::MAX {
            Some(n as u32)
        } else {
            None
        },
        _ => None,
    }
}

/// The payload that a JSON value encodes, or `None` when it encodes none.
pub open spec fn decode_payload(value: JsonModel) -> Option<WebhookPayloadModel> {
    match value {
        JsonModel::Object(members) => {
            let success = required_bool(members, "success"@);
            let event_type = required_text(members, "type"@);
            let webhook_id = required_text(members, "webhookId"@);
            let id = optional_text(members, "id"@);
            let job_id = optional_text(members, "jobId"@);
            let data = required_array(members, "data"@);
            let error = optional_text(members, "error"@);
            let metadata = optional_text_map(members, "metadata"@);
            if success is Some && event_type is Some && webhook_id is Some && id is Some
                && job_id is Some && data is Some && error is Some && metadata is Some {
                Some(
                    WebhookPayloadModel {
                        success: success->0,
                        event_type: event_type->0,
                        webhook_id: webhook_id->0,
                        id: id->0,
                        job_id: job_id->0,
                        data: data->0,
                        error: error->0,
                        metadata: metadata->0,
                    },
                )
            } else {
                None
            }
        },
        _ => None,
    }
}

/// The delivery request that a JSON value encodes, or `None` when the value
/// is malformed as a queue message.
pub open spec fn decode_value(value: JsonModel) -> Option<WebhookQueueMessageModel> {
    match value {
        JsonModel::Object(members) => {
            let webhook_url = required_text(members, "webhook_url"@);
            let payload = match member(members, "payload"@) {
                Some(inner) => decode_payload(inner),
                None => None,
            };
            let headers = required_text_map(members, "headers"@);
            let team_id = required_text(members, "team_id"@);
            let job_id = required_text(members, "job_id"@);
            let scrape_id = optional_text(members, "scrape_id"@);
            let event = required_text(members, "event"@);
            let timeout_ms = required_timeout(members, "timeout_ms"@);
            let retry_count = retry_count_or_zero(members, "retry_count"@);
            if webhook_url is Some && payload is Some && headers is Some && team_id is Some
                && job_id is Some && scrape_id is Some && event is Some && timeout_ms is Some
                && retry_count is Some {
                Some(
                    WebhookQueueMessageModel {
                        webhook_url: webhook_url->0,
                        payload: payload->0,
                        headers: headers->0,
                        team_id: team_id->0,
                        job_id: job_id->0,
                        scrape_id: scrape_id->0,
                        event: event->0,
                        timeout_ms: timeout_ms->0,
                        retry_count: retry_count->0,
                    },
                )
            } else {
                None
            }
        },
        _ => None,
    }
}

/// The delivery request that a parsed document encodes; a document that did
/// not parse encodes none.
pub open spec fn decode_document(document: Option<JsonModel>) -> Option<WebhookQueueMessageModel> {
    match document {
        Some(value) => decode_value(value),
        None => None,
    }
}

/// The pairs that [`text_pairs`] makes have distinct keys.
pub proof fn lemma_text_pairs_distinct(members: Members)
    ensures
        text_pairs(members) matches Some(pairs) ==> distinct_keys(pairs),
    decreases members.len(),
{
    if members.len() > 0 {
        lemma_text_pairs_distinct(members.drop_last());
    }
}

/// Once a prefix of the members holds a value that is not a string, the
/// whole object is no string mapping.
pub proof fn lemma_text_pairs_prefix(members: Members, n: int)
    requires
        0 <= n <= members.len(),
        text_pairs(members.take(n)) is None,
    ensures
        text_pairs(members) is None,
    decreases members.len() - n,
{
    if n < members.len() {
        assert(members.take(n + 1).drop_last() =~= members.take(n));
        lemma_text_pairs_prefix(members, n + 1);
    } else {
        assert(members.take(n) =~= members);
    }
}

/// What a decoded request's model always satisfies.
pub proof fn lemma_decoded_is_wf(value: JsonModel)
    ensures
        decode_value(value) matches Some(message) ==> message.wf(),
{
    if let JsonModel::Object(members) = value {
        if let Some(JsonModel::Object(inner)) = member(members, "headers"@) {
            lemma_text_pairs_distinct(inner);
        }
        if let Some(JsonModel::Object(payload)) = member(members, "payload"@) {
            if let Some(JsonModel::Object(inner)) = member(payload, "metadata"@) {
                lemma_text_pairs_distinct(inner);
            }
        }
    }
}

/// Reads a required string member.
fn text_field(members: &Vec<(String, JsonValue)>, name: &str) -> (text: Option<String>)
    ensures
        text_model(text) == required_text(entries_model(members@), name@),
{
    let key = name.to_owned();
    match find(members, &key) {
        Some(JsonValue::String(text)) => Some(text.clone()),
        _ => None,
    }
}

/// The model of the result of reading an optional string member.
pub open spec fn nested_text_model(text: Option<Option<String>>) -> Option<Option<Seq<char>>> {
    match text {
        Some(inner) => Some(text_model(inner)),
        None => None,
    }
}

/// Reads an optional string member.
fn optional_text_field(members: &Vec<(String, JsonValue)>, name: &str) -> (text: Option<
    Option<String>,
>)
    ensures
        nested_text_model(text) == optional_text(entries_model(members@), name@),
{
    let key = name.to_owned();
    match find(members, &key) {
        None => Some(None),
        Some(JsonValue::Null) => Some(None),
        Some(JsonValue::String(text)) => Some(Some(text.clone())),
        _ => None,
    }
}

/// Reads the members of an object as string pairs.
fn text_map(members: &Vec<(String, JsonValue)>) -> (pairs: Option<Vec<(String, String)>>)
    ensures
        optional_pairs_model(pairs) == text_pairs(entries_model(members@)),
{
    let ghost all = entries_model(members@);
    let mut pairs: Vec<(String, String)> = Vec::new();
    let mut i: usize = 0;
    assert(all.take(0) =~= Seq::<(Seq<char>, JsonModel)>::empty());
    assert(pairs_model(pairs@) =~= Seq::<(Seq<char>, Seq<char>)>::empty());
    while i < members.len()
        invariant
            i <= members.len(),
            all == entries_model(members@),
            text_pairs(all.take(i as int)) == Some(pairs_model(pairs@)),
        decreases members.len() - i,
    {
        let ghost before = pairs_model(pairs@);
        proof {
            assert(all.take(i + 1).drop_last() =~= all.take(i as int));
            assert(all.take(i + 1).last() == all[i as int]);
        }
        match &members[i].1 {
            JsonValue::String(value) => {
                if !contains_key(&pairs, &members[i].0) {
                    let key = members[i].0.clone();
                    let text = value.clone();
                    pairs.push((key, text));
                    assert(pairs_model(pairs@) =~= before.push((all[i as int].0, value@)));
                }
            },
            _ => {
                proof {
                    lemma_text_pairs_prefix(all, i + 1);
                }
                return None;
            },
        }
        i += 1;
    }
    assert(all.take(i as int) =~= all);
    Some(pairs)
}

/// Reads a payload from a JSON value.
pub fn payload_from_json(value: &JsonValue) -> (payload: Option<WebhookPayload>)
    ensures
        match payload {
            Some(p) => decode_payload(value@) == Some(p@),
            None => decode_payload(value@) is None,
        },
{
    let members = match value {
        JsonValue::Object(members) => members,
        _ => {
            return None;
        },
    };
    let success = match find(members, &"success".to_owned()) {
        Some(JsonValue::Bool(b)) => *b,
        _ => {
            return None;
        },
    };
    let event_type = match text_field(members, "type") {
        Some(text) => text,
        None => {
            return None;
        },
    };
    let webhook_id = match text_field(members, "webhookId") {
        Some(text) => text,
        None => {
            return None;
        },
    };
    let id = match optional_text_field(members, "id") {
        Some(text) => text,
        None => {
            return None;
        },
    };
    let job_id = match optional_text_field(members, "jobId") {
        Some(text) => text,
        None => {
            return None;
        },
    };
    let data = match find(members, &"data".to_owned()) {
        Some(JsonValue::Array(items)) => clone_items(items),
        _ => {
            return None;
        },
    };
    let error = match optional_text_field(members, "error") {
        Some(text) => text,
        None => {
            return None;
        },
    };
    let metadata = match find(members, &"metadata".to_owned()) {
        None => None,
        Some(JsonValue::Null) => None,
        Some(JsonValue::Object(inner)) => match text_map(inner) {
            Some(pairs) => Some(pairs),
            None => {
                return None;
            },
        },
        _ => {
            return None;
        },
    };
    Some(WebhookPayload { success, event_type, webhook_id, id, job_id, data, error, metadata })
}

/// Decodes a parsed JSON document as a delivery request.
///
/// Succeeds exactly on the documents that [`decode_value`] accepts, with the
/// request it describes; the request is then well formed.
pub fn message_from_json(value: &JsonValue) -> (decoded: Result<WebhookQueueMessage, DecodeError>)
    ensures
        match decoded {
            Ok(message) => decode_value(value@) == Some(message@) && message@.wf(),
            Err(error) => decode_value(value@) is None && error == DecodeError::MalformedMessage,
        },
{
    proof {
        lemma_decoded_is_wf(value@);
    }
    let members = match value {
        JsonValue::Object(members) => members,
        _ => {
            return Err(DecodeError::MalformedMessage);
        },
    };
    let webhook_url = match text_field(members, "webhook_url") {
        Some(text) => text,
        None => {
            return Err(DecodeError::MalformedMessage);
        },
    };
    let payload = match find(members, &"payload".to_owned()) {
        Some(inner) => match payload_from_json(inner) {
            Some(payload) => payload,
            None => {
                return Err(DecodeError::MalformedMessage);
            },
        },
        None => {
            return Err(DecodeError::MalformedMessage);
        },
    };
    let headers = match find(members, &"headers".to_owned()) {
        Some(JsonValue::Object(inner)) => match text_map(inner) {
            Some(pairs) => pairs,
            None => {
                return Err(DecodeError::MalformedMessage);
            },
        },
        _ => {
            return Err(DecodeError::MalformedMessage);
        },
    };
    let team_id = match text_field(members, "team_id") {
        Some(text) => text,
        None => {
            return Err(DecodeError::MalformedMessage);
        },
    };
    let job_id = match text_field(members, "job_id") {
        Some(text) => text,
        None => {
            return Err(DecodeError::MalformedMessage);
        },
    };
    let scrape_id = match optional_text_field(members, "scrape_id") {
        Some(text) => text,
        None => {
            return Err(DecodeError::MalformedMessage);
        },
    };
    let event = match text_field(members, "event") {
        Some(text) => text,
        None => {
            return Err(DecodeError::MalformedMessage);
        },
    };
    let timeout_ms = match find(members, &"timeout_ms".to_owned()) {
        Some(JsonValue::Unsigned(n)) => {
            if *n == 0 {
                return Err(DecodeError::MalformedMessage);
            }
            *n
        },
        _ => {
            return Err(DecodeError::MalformedMessage);
        },
    };
    let retry_count: u32 = match find(members, &"retry_count".to_owned()) {
        None => 0,
        Some(JsonValue::Unsigned(n)) => {
            if *n > 0xffff_ffff {
                return Err(DecodeError::MalformedMessage);
            }
            *n as u32
        },
        _ => {
            return Err(DecodeError::MalformedMessage);
        },
    };
    Ok(
        WebhookQueueMessage {
            webhook_url,
            payload,
            headers,
            team_id,
            job_id,
            scrape_id,
            event,
            timeout_ms,
            retry_count,
        },
    )
}

/// Decodes the bytes of a queue message as a delivery request.
///
/// The bytes are parsed as JSON and the document is decoded; bytes that are
/// no JSON document are malformed.
pub fn decode_message(bytes: &[u8]) -> (decoded: Result<WebhookQueueMessage, DecodeError>)
    ensures
        match decoded {
            Ok(message) => decode_document(parsed_document(bytes@)) == Some(message@)
                && message@.wf(),
            Err(error) => decode_document(parsed_document(bytes@)) is None && error
                == DecodeError::MalformedMessage,
        },
{
    match parse_json(bytes) {
        Some(value) => message_from_json(&value),
        None => Err(DecodeError::MalformedMessage),
    }
}

} // verus!
