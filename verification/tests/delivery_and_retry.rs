use webhook_dispatcher::config::{Config, ConfigValues};
use webhook_dispatcher::delivery::{classify, AttemptOutcome, AttemptResult, FailureReason};
use webhook_dispatcher::logger::log_entry;
use webhook_dispatcher::models::{WebhookLog, WebhookPayload, WebhookQueueMessage};
use webhook_dispatcher::retry::{RetryDecision, RetryPolicy};

fn request() -> WebhookQueueMessage {
    WebhookQueueMessage {
        webhook_url: "https://example.com/hook".to_string(),
        payload: WebhookPayload {
            success: true,
            event_type: "crawl.completed".to_string(),
            webhook_id: "wh-1".to_string(),
            id: None,
            job_id: None,
            data: vec![],
            error: None,
            metadata: None,
        },
        headers: vec![],
        team_id: "team-1".to_string(),
        job_id: "job-1".to_string(),
        scrape_id: Some("scrape-1".to_string()),
        event: "crawl.completed".to_string(),
        timeout_ms: 5000,
        retry_count: 0,
    }
}

fn policy(max_retries: u32) -> RetryPolicy {
    RetryPolicy { max_retries, retry_delay_ms: 60000 }
}

#[test]
fn success_statuses_deliver() {
    for status in [200u16, 201, 204, 299] {
        assert_eq!(classify(AttemptResult::Response(status)), AttemptOutcome::Delivered(status));
    }
}

#[test]
fn retryable_statuses_are_transient() {
    for status in [408u16, 429, 500, 502, 503, 599] {
        assert_eq!(
            classify(AttemptResult::Response(status)),
            AttemptOutcome::TransientFailure(FailureReason::Status(status))
        );
    }
}

#[test]
fn other_statuses_are_permanent() {
    for status in [300u16, 301, 399, 400, 401, 404, 407, 409, 428, 430, 499] {
        assert_eq!(
            classify(AttemptResult::Response(status)),
            AttemptOutcome::PermanentFailure(FailureReason::Status(status))
        );
    }
    for status in [0u16, 100, 199, 600, 999, u16::MAX] {
        assert_eq!(
            classify(AttemptResult::Response(status)),
            AttemptOutcome::PermanentFailure(FailureReason::Status(status))
        );
    }
}

#[test]
fn connection_level_failures_are_transient() {
    assert_eq!(
        classify(AttemptResult::TimedOut),
        AttemptOutcome::TransientFailure(FailureReason::Timeout)
    );
    assert_eq!(
        classify(AttemptResult::ConnectionFailed),
        AttemptOutcome::TransientFailure(FailureReason::Connection)
    );
    assert_eq!(
        classify(AttemptResult::DnsFailed),
        AttemptOutcome::TransientFailure(FailureReason::Dns)
    );
}

#[test]
fn status_code_is_present_only_with_a_response() {
    assert_eq!(AttemptOutcome::Delivered(204).status_code(), Some(204));
    assert_eq!(
        AttemptOutcome::PermanentFailure(FailureReason::Status(404)).status_code(),
        Some(404)
    );
    assert_eq!(
        AttemptOutcome::TransientFailure(FailureReason::Status(503)).status_code(),
        Some(503)
    );
    assert_eq!(AttemptOutcome::TransientFailure(FailureReason::Timeout).status_code(), None);
    assert_eq!(AttemptOutcome::TransientFailure(FailureReason::Connection).status_code(), None);
    assert_eq!(AttemptOutcome::PermanentFailure(FailureReason::Dns).status_code(), None);
    assert!(AttemptOutcome::Delivered(200).is_delivered());
    assert!(!AttemptOutcome::TransientFailure(FailureReason::Timeout).is_delivered());
}

#[test]
fn reason_messages_are_exact() {
    assert_eq!(FailureReason::Status(404).message(), "HTTP status 404");
    assert_eq!(FailureReason::Status(500).message(), "HTTP status 500");
    assert_eq!(FailureReason::Status(0).message(), "HTTP status 0");
    assert_eq!(FailureReason::Status(65535).message(), "HTTP status 65535");
    assert_eq!(FailureReason::Timeout.message(), "request timed out");
    assert_eq!(FailureReason::Connection.message(), "connection failed");
    assert_eq!(FailureReason::Dns.message(), "DNS resolution failed");
    assert_eq!(AttemptOutcome::Delivered(200).error_message(), None);
    assert_eq!(
        AttemptOutcome::TransientFailure(FailureReason::Timeout).error_message(),
        Some("request timed out".to_string())
    );
}

#[test]
fn delivered_is_terminal_success() {
    for retry_count in [0u32, 1, 2, 3, 100, u32::MAX] {
        assert_eq!(
            policy(3).decide(retry_count, &AttemptOutcome::Delivered(200)),
            RetryDecision::TerminalSuccess
        );
    }
}

#[test]
fn permanent_failure_is_terminal_whatever_the_count() {
    for retry_count in [0u32, 1, 2, 3, 100, u32::MAX] {
        assert_eq!(
            policy(3).decide(
                retry_count,
                &AttemptOutcome::PermanentFailure(FailureReason::Status(404))
            ),
            RetryDecision::TerminalFailure
        );
    }
}

#[test]
fn transient_failure_retries_below_the_limit() {
    let outcome = AttemptOutcome::TransientFailure(FailureReason::Status(500));
    assert_eq!(
        policy(3).decide(0, &outcome),
        RetryDecision::Retry { retry_count: 1, wait_ms: 60000 }
    );
    assert_eq!(
        policy(3).decide(1, &outcome),
        RetryDecision::Retry { retry_count: 2, wait_ms: 60000 }
    );
    assert_eq!(policy(3).decide(2, &outcome), RetryDecision::TerminalFailure);
    assert_eq!(policy(3).decide(3, &outcome), RetryDecision::TerminalFailure);
    assert_eq!(policy(3).decide(u32::MAX, &outcome), RetryDecision::TerminalFailure);
}

#[test]
fn transient_failure_with_small_limits() {
    let outcome = AttemptOutcome::TransientFailure(FailureReason::Timeout);
    assert_eq!(policy(0).decide(0, &outcome), RetryDecision::TerminalFailure);
    assert_eq!(policy(1).decide(0, &outcome), RetryDecision::TerminalFailure);
    assert_eq!(
        policy(2).decide(0, &outcome),
        RetryDecision::Retry { retry_count: 1, wait_ms: 60000 }
    );
    assert_eq!(policy(2).decide(1, &outcome), RetryDecision::TerminalFailure);
    assert_eq!(
        policy(u32::MAX).decide(u32::MAX - 2, &outcome),
        RetryDecision::Retry { retry_count: u32::MAX - 1, wait_ms: 60000 }
    );
    assert_eq!(policy(u32::MAX).decide(u32::MAX - 1, &outcome), RetryDecision::TerminalFailure);
}

#[test]
fn wait_is_the_fixed_delay() {
    let p = RetryPolicy { max_retries: 10, retry_delay_ms: 250 };
    let outcome = AttemptOutcome::TransientFailure(FailureReason::Connection);
    for retry_count in 0u32..9 {
        assert_eq!(
            p.decide(retry_count, &outcome),
            RetryDecision::Retry { retry_count: retry_count + 1, wait_ms: 250 }
        );
    }
}

#[test]
fn decision_is_repeatable() {
    let outcomes = [
        AttemptOutcome::Delivered(200),
        AttemptOutcome::TransientFailure(FailureReason::Timeout),
        AttemptOutcome::TransientFailure(FailureReason::Status(503)),
        AttemptOutcome::PermanentFailure(FailureReason::Status(404)),
    ];
    for outcome in outcomes {
        for retry_count in 0u32..5 {
            let first = policy(3).decide(retry_count, &outcome);
            let second = policy(3).decide(retry_count, &outcome);
            assert_eq!(first, second);
        }
    }
}

#[test]
fn policy_comes_from_the_configuration() {
    let config = Config::from_values(ConfigValues {
        rabbitmq_url: Some("amqp://q".to_string()),
        supabase_url: Some("https://log".to_string()),
        supabase_service_token: Some("SECRET-REDACTED".to_string()),
        retry_delay_ms: Some("1500".to_string()),
        max_retries: Some("5".to_string()),
        prefetch_count: None,
    })
    .expect("a configuration");
    assert_eq!(RetryPolicy::new(&config), RetryPolicy { max_retries: 5, retry_delay_ms: 1500 });
}

#[test]
fn log_entry_of_a_delivery() {
    let entry = log_entry(&request(), &AttemptOutcome::Delivered(200));
    assert_eq!(
        entry,
        WebhookLog {
            success: true,
            error: None,
            team_id: "team-1".to_string(),
            crawl_id: "job-1".to_string(),
            scrape_id: Some("scrape-1".to_string()),
            url: "https://example.com/hook".to_string(),
            status_code: Some(200),
            event: "crawl.completed".to_string(),
        }
    );
}

#[test]
fn log_entry_of_a_permanent_failure() {
    let entry = log_entry(
        &request(),
        &AttemptOutcome::PermanentFailure(FailureReason::Status(404)),
    );
    assert_eq!(entry.success, false);
    assert_eq!(entry.error, Some("HTTP status 404".to_string()));
    assert_eq!(entry.status_code, Some(404));
    assert_eq!(entry.team_id, "team-1");
    assert_eq!(entry.crawl_id, "job-1");
    assert_eq!(entry.url, "https://example.com/hook");
    assert_eq!(entry.event, "crawl.completed");
}

#[test]
fn log_entry_of_a_timeout_has_no_status() {
    let mut req = request();
    req.scrape_id = None;
    let entry = log_entry(&req, &AttemptOutcome::TransientFailure(FailureReason::Timeout));
    assert_eq!(
        entry,
        WebhookLog {
            success: false,
            error: Some("request timed out".to_string()),
            team_id: "team-1".to_string(),
            crawl_id: "job-1".to_string(),
            scrape_id: None,
            url: "https://example.com/hook".to_string(),
            status_code: None,
            event: "crawl.completed".to_string(),
        }
    );
    assert_eq!(entry.clone(), entry);
}

#[test]
fn log_entry_keeps_the_largest_status() {
    let entry = log_entry(
        &request(),
        &AttemptOutcome::PermanentFailure(FailureReason::Status(u16::MAX)),
    );
    assert_eq!(entry.status_code, Some(65535));
    assert_eq!(entry.error, Some("HTTP status 65535".to_string()));
}
