use webhook_dispatcher::decoder::{decode_message, message_from_json, payload_from_json, DecodeError};
use webhook_dispatcher::json::{find, JsonValue};
use webhook_dispatcher::models::{WebhookPayload, WebhookQueueMessage};
use webhook_dispatcher::parse::parse_json;

fn text(s: &str) -> JsonValue {
    JsonValue::String(s.to_string())
}

fn member(key: &str, value: JsonValue) -> (String, JsonValue) {
    (key.to_string(), value)
}

fn payload_members() -> Vec<(String, JsonValue)> {
    vec![
        member("success", JsonValue::Bool(true)),
        member("type", text("crawl.completed")),
        member("webhookId", text("wh-1")),
        member("data", JsonValue::Array(vec![])),
    ]
}

fn message_members() -> Vec<(String, JsonValue)> {
    vec![
        member("webhook_url", text("https://example.com/hook")),
        member("payload", JsonValue::Object(payload_members())),
        member("headers", JsonValue::Object(vec![member("X-Key", text("abc"))])),
        member("team_id", text("team-1")),
        member("job_id", text("job-1")),
        member("event", text("crawl.completed")),
        member("timeout_ms", JsonValue::Unsigned(5000)),
    ]
}

fn without(members: Vec<(String, JsonValue)>, key: &str) -> Vec<(String, JsonValue)> {
    members.into_iter().filter(|(k, _)| k != key).collect()
}

fn replaced(
    members: Vec<(String, JsonValue)>,
    key: &str,
    value: JsonValue,
) -> Vec<(String, JsonValue)> {
    let mut out = without(members, key);
    out.push(member(key, value));
    out
}

fn expected_message() -> WebhookQueueMessage {
    WebhookQueueMessage {
        webhook_url: "https://example.com/hook".to_string(),
        payload: WebhookPayload {
            success: true,
            event_type: "crawl.completed".to_string(),
            webhook_id: "wh-1".to_string(),
            id: None,
            job_id: None,
            data: vec![],
            error: None,
            metadata: None,
        },
        headers: vec![("X-Key".to_string(), "abc".to_string())],
        team_id: "team-1".to_string(),
        job_id: "job-1".to_string(),
        scrape_id: None,
        event: "crawl.completed".to_string(),
        timeout_ms: 5000,
        retry_count: 0,
    }
}

const FULL: &str = r#"{
    "webhook_url": "https://example.com/hook",
    "payload": {
        "success": false,
        "type": "crawl.page",
        "webhookId": "wh-9",
        "id": "p-1",
        "jobId": "j-7",
        "data": [1, "two", {"three": [3.5, null, true]}, -4],
        "error": "boom",
        "metadata": {"b": "2", "a": "1"}
    },
    "headers": {"X-B": "2", "X-A": "1"},
    "team_id": "team-1",
    "job_id": "job-1",
    "scrape_id": "scrape-1",
    "event": "crawl.page",
    "timeout_ms": 5000,
    "retry_count": 2,
    "extra": "ignored"
}"#;

#[test]
fn decodes_minimal_message_from_values() {
    let decoded = message_from_json(&JsonValue::Object(message_members()));
    assert_eq!(decoded, Ok(expected_message()));
}

#[test]
fn decodes_full_message_from_bytes() {
    let message = decode_message(FULL.as_bytes()).expect("a well-formed message");
    assert_eq!(message.webhook_url, "https://example.com/hook");
    assert_eq!(message.team_id, "team-1");
    assert_eq!(message.job_id, "job-1");
    assert_eq!(message.scrape_id, Some("scrape-1".to_string()));
    assert_eq!(message.event, "crawl.page");
    assert_eq!(message.timeout_ms, 5000);
    assert_eq!(message.retry_count, 2);
    assert_eq!(
        message.headers,
        vec![
            ("X-A".to_string(), "1".to_string()),
            ("X-B".to_string(), "2".to_string())
        ]
    );
    assert_eq!(message.payload.success, false);
    assert_eq!(message.payload.event_type, "crawl.page");
    assert_eq!(message.payload.webhook_id, "wh-9");
    assert_eq!(message.payload.id, Some("p-1".to_string()));
    assert_eq!(message.payload.job_id, Some("j-7".to_string()));
    assert_eq!(message.payload.error, Some("boom".to_string()));
    assert_eq!(
        message.payload.metadata,
        Some(vec![
            ("a".to_string(), "1".to_string()),
            ("b".to_string(), "2".to_string())
        ])
    );
    assert_eq!(
        message.payload.data,
        vec![
            JsonValue::Unsigned(1),
            text("two"),
            JsonValue::Object(vec![member(
                "three",
                JsonValue::Array(vec![
                    JsonValue::OtherNumber("3.5".to_string()),
                    JsonValue::Null,
                    JsonValue::Bool(true)
                ])
            )]),
            JsonValue::OtherNumber("-4".to_string()),
        ]
    );
}

#[test]
fn retry_count_defaults_to_zero() {
    let bytes = br#"{"webhook_url":"u","payload":{"success":true,"type":"t","webhookId":"w","data":[]},"headers":{},"team_id":"t","job_id":"j","event":"e","timeout_ms":1}"#;
    let message = decode_message(bytes).expect("a well-formed message");
    assert_eq!(message.retry_count, 0);
    assert_eq!(message.timeout_ms, 1);
    assert_eq!(message.scrape_id, None);
    assert_eq!(message.headers, vec![]);
}

#[test]
fn missing_webhook_url_is_malformed() {
    let members = without(message_members(), "webhook_url");
    assert_eq!(
        message_from_json(&JsonValue::Object(members)),
        Err(DecodeError::MalformedMessage)
    );
    let bytes = br#"{"payload":{"success":true,"type":"t","webhookId":"w","data":[]},"headers":{},"team_id":"t","job_id":"j","event":"e","timeout_ms":5000}"#;
    assert_eq!(decode_message(bytes), Err(DecodeError::MalformedMessage));
}

#[test]
fn each_required_field_is_required() {
    for key in [
        "webhook_url",
        "payload",
        "headers",
        "team_id",
        "job_id",
        "event",
        "timeout_ms",
    ] {
        let members = without(message_members(), key);
        assert_eq!(
            message_from_json(&JsonValue::Object(members)),
            Err(DecodeError::MalformedMessage),
            "without {}",
            key
        );
    }
}

#[test]
fn each_required_payload_field_is_required() {
    for key in ["success", "type", "webhookId", "data"] {
        let members = without(payload_members(), key);
        assert_eq!(payload_from_json(&JsonValue::Object(members)), None, "without {}", key);
    }
    assert!(payload_from_json(&JsonValue::Object(payload_members())).is_some());
}

#[test]
fn wrong_field_types_are_malformed() {
    let cases: Vec<(&str, JsonValue)> = vec![
        ("webhook_url", JsonValue::Unsigned(1)),
        ("webhook_url", JsonValue::Null),
        ("payload", text("p")),
        ("headers", JsonValue::Array(vec![])),
        ("headers", JsonValue::Object(vec![member("k", JsonValue::Unsigned(1))])),
        ("team_id", JsonValue::Bool(true)),
        ("job_id", JsonValue::Array(vec![])),
        ("event", JsonValue::Null),
        ("scrape_id", JsonValue::Unsigned(7)),
        ("timeout_ms", text("5000")),
        ("timeout_ms", JsonValue::OtherNumber("5000.5".to_string())),
        ("timeout_ms", JsonValue::OtherNumber("-1".to_string())),
        ("timeout_ms", JsonValue::Null),
        ("retry_count", text("1")),
        ("retry_count", JsonValue::Null),
        ("retry_count", JsonValue::OtherNumber("-1".to_string())),
    ];
    for (key, value) in cases {
        let members = replaced(message_members(), key, value);
        assert_eq!(
            message_from_json(&JsonValue::Object(members)),
            Err(DecodeError::MalformedMessage),
            "with a wrong {}",
            key
        );
    }
}

#[test]
fn timeout_must_be_positive() {
    let zero = replaced(message_members(), "timeout_ms", JsonValue::Unsigned(0));
    assert_eq!(
        message_from_json(&JsonValue::Object(zero)),
        Err(DecodeError::MalformedMessage)
    );
    let one = replaced(message_members(), "timeout_ms", JsonValue::Unsigned(1));
    assert_eq!(message_from_json(&JsonValue::Object(one)).map(|m| m.timeout_ms), Ok(1));
    let most = replaced(message_members(), "timeout_ms", JsonValue::Unsigned(u64::MAX));
    assert_eq!(
        message_from_json(&JsonValue::Object(most)).map(|m| m.timeout_ms),
        Ok(u64::MAX)
    );
}

#[test]
fn retry_count_must_fit_32_bits() {
    let most = replaced(message_members(), "retry_count", JsonValue::Unsigned(4294967295));
    assert_eq!(
        message_from_json(&JsonValue::Object(most)).map(|m| m.retry_count),
        Ok(u32::MAX)
    );
    let over = replaced(message_members(), "retry_count", JsonValue::Unsigned(4294967296));
    assert_eq!(
        message_from_json(&JsonValue::Object(over)),
        Err(DecodeError::MalformedMessage)
    );
}

#[test]
fn null_optional_fields_are_absent() {
    let members = replaced(message_members(), "scrape_id", JsonValue::Null);
    assert_eq!(
        message_from_json(&JsonValue::Object(members)).map(|m| m.scrape_id),
        Ok(None)
    );
    let mut payload = payload_members();
    payload.push(member("id", JsonValue::Null));
    payload.push(member("jobId", JsonValue::Null));
    payload.push(member("error", JsonValue::Null));
    payload.push(member("metadata", JsonValue::Null));
    let decoded = payload_from_json(&JsonValue::Object(payload)).expect("a payload");
    assert_eq!(decoded.id, None);
    assert_eq!(decoded.job_id, None);
    assert_eq!(decoded.error, None);
    assert_eq!(decoded.metadata, None);
}

#[test]
fn wrong_payload_field_types_are_rejected() {
    let cases: Vec<(&str, JsonValue)> = vec![
        ("success", text("true")),
        ("type", JsonValue::Unsigned(1)),
        ("webhookId", JsonValue::Null),
        ("id", JsonValue::Unsigned(1)),
        ("jobId", JsonValue::Bool(false)),
        ("data", JsonValue::Object(vec![])),
        ("data", JsonValue::Null),
        ("error", JsonValue::Array(vec![])),
        ("metadata", text("m")),
        ("metadata", JsonValue::Object(vec![member("k", JsonValue::Null)])),
    ];
    for (key, value) in cases {
        let members = replaced(payload_members(), key, value);
        assert_eq!(payload_from_json(&JsonValue::Object(members)), None, "with a wrong {}", key);
    }
}

#[test]
fn repeated_header_keeps_the_first() {
    let headers = JsonValue::Object(vec![
        member("A", text("1")),
        member("B", text("2")),
        member("A", text("3")),
    ]);
    let members = replaced(message_members(), "headers", headers);
    assert_eq!(
        message_from_json(&JsonValue::Object(members)).map(|m| m.headers),
        Ok(vec![
            ("A".to_string(), "1".to_string()),
            ("B".to_string(), "2".to_string())
        ])
    );
}

#[test]
fn repeated_member_reads_the_first() {
    let mut members = message_members();
    members.push(member("team_id", text("other")));
    assert_eq!(
        message_from_json(&JsonValue::Object(members)).map(|m| m.team_id),
        Ok("team-1".to_string())
    );
}

#[test]
fn non_objects_are_malformed() {
    for value in [
        JsonValue::Null,
        JsonValue::Bool(true),
        JsonValue::Unsigned(1),
        text("x"),
        JsonValue::Array(vec![]),
        JsonValue::Object(vec![]),
    ] {
        assert_eq!(message_from_json(&value), Err(DecodeError::MalformedMessage));
    }
}

#[test]
fn bytes_that_are_no_json_are_malformed() {
    for bytes in [
        &b""[..],
        &b"not json"[..],
        &b"{"[..],
        &b"{\"webhook_url\": }"[..],
        &b"[1, 2"[..],
        &b"{} trailing"[..],
        &[0xff, 0xfe][..],
    ] {
        assert_eq!(decode_message(bytes), Err(DecodeError::MalformedMessage));
        assert_eq!(parse_json(bytes), None);
    }
}

#[test]
fn message_as_array_is_malformed() {
    let bytes = br#"["https://example.com/hook", {"success":true,"type":"t","webhookId":"w","data":[]}, {}, "t", "j", null, "e", 5000, 0]"#;
    assert_eq!(decode_message(bytes), Err(DecodeError::MalformedMessage));
}

#[test]
fn parses_scalars() {
    assert_eq!(parse_json(b"null"), Some(JsonValue::Null));
    assert_eq!(parse_json(b"true"), Some(JsonValue::Bool(true)));
    assert_eq!(parse_json(b"false"), Some(JsonValue::Bool(false)));
    assert_eq!(parse_json(b"0"), Some(JsonValue::Unsigned(0)));
    assert_eq!(parse_json(b" 5000 "), Some(JsonValue::Unsigned(5000)));
    assert_eq!(
        parse_json(b"18446744073709551615"),
        Some(JsonValue::Unsigned(u64::MAX))
    );
    assert_eq!(parse_json(b"-1"), Some(JsonValue::OtherNumber("-1".to_string())));
    assert_eq!(parse_json(b"1.5"), Some(JsonValue::OtherNumber("1.5".to_string())));
    assert_eq!(parse_json(b"\"a\\nb\""), Some(text("a\nb")));
}

#[test]
fn parses_nested_values_with_sorted_keys() {
    let parsed = parse_json(br#"{"b": [1, {"z": null, "y": "s"}], "a": {}}"#);
    assert_eq!(
        parsed,
        Some(JsonValue::Object(vec![
            member("a", JsonValue::Object(vec![])),
            member(
                "b",
                JsonValue::Array(vec![
                    JsonValue::Unsigned(1),
                    JsonValue::Object(vec![member("y", text("s")), member("z", JsonValue::Null)]),
                ])
            ),
        ]))
    );
}

#[test]
fn a_key_written_twice_holds_its_last_value_after_parsing() {
    assert_eq!(
        parse_json(br#"{"k": 1, "k": 2}"#),
        Some(JsonValue::Object(vec![member("k", JsonValue::Unsigned(2))]))
    );
}

#[test]
fn find_takes_the_first_member_with_the_key() {
    let members = vec![
        member("a", JsonValue::Unsigned(1)),
        member("b", JsonValue::Unsigned(2)),
        member("a", JsonValue::Unsigned(3)),
    ];
    assert_eq!(find(&members, &"a".to_string()), Some(&JsonValue::Unsigned(1)));
    assert_eq!(find(&members, &"b".to_string()), Some(&JsonValue::Unsigned(2)));
    assert_eq!(find(&members, &"c".to_string()), None);
    assert_eq!(find(&vec![], &"a".to_string()), None);
}

#[test]
fn clone_is_deep_and_equal() {
    let value = parse_json(FULL.as_bytes()).expect("a document");
    assert_eq!(value.clone(), value);
    let message = decode_message(FULL.as_bytes()).expect("a message");
    assert_eq!(message.clone(), message);
}
