use webhook_dispatcher::config::{
    Config, ConfigValues, ConfigurationError, DEFAULT_MAX_RETRIES, DEFAULT_PREFETCH_COUNT,
    DEFAULT_RETRY_DELAY_MS,
};
use webhook_dispatcher::text::{parse_unsigned, render_unsigned};

fn values() -> ConfigValues {
    ConfigValues {
        rabbitmq_url: Some("amqp://localhost".to_string()),
        supabase_url: Some("https://log.example.com".to_string()),
        supabase_service_token: Some("SECRET-REDACTED".to_string()),
        retry_delay_ms: None,
        max_retries: None,
        prefetch_count: None,
    }
}

fn some(s: &str) -> Option<String> {
    Some(s.to_string())
}

#[test]
fn defaults_apply_when_unset() {
    let config = Config::from_values(values()).expect("a configuration");
    assert_eq!(
        config,
        Config {
            rabbitmq_url: "amqp://localhost".to_string(),
            supabase_url: "https://log.example.com".to_string(),
            supabase_service_token: "SECRET-REDACTED".to_string(),
            retry_delay_ms: 60000,
            max_retries: 3,
            prefetch_count: 100,
        }
    );
    assert_eq!(DEFAULT_RETRY_DELAY_MS, 60000);
    assert_eq!(DEFAULT_MAX_RETRIES, 3);
    assert_eq!(DEFAULT_PREFETCH_COUNT, 100);
    assert_eq!(config.clone(), config);
}

#[test]
fn numeric_settings_are_read() {
    let mut v = values();
    v.retry_delay_ms = some("1500");
    v.max_retries = some("7");
    v.prefetch_count = some("+25");
    let config = Config::from_values(v).expect("a configuration");
    assert_eq!(config.retry_delay_ms, 1500);
    assert_eq!(config.max_retries, 7);
    assert_eq!(config.prefetch_count, 25);
}

#[test]
fn numeric_settings_at_their_limits() {
    let mut v = values();
    v.retry_delay_ms = some("18446744073709551615");
    v.max_retries = some("4294967295");
    v.prefetch_count = some("65535");
    let config = Config::from_values(v).expect("a configuration");
    assert_eq!(config.retry_delay_ms, u64::MAX);
    assert_eq!(config.max_retries, u32::MAX);
    assert_eq!(config.prefetch_count, u16::MAX);
    let mut v = values();
    v.retry_delay_ms = some("0");
    v.max_retries = some("0");
    v.prefetch_count = some("000");
    let config = Config::from_values(v).expect("a configuration");
    assert_eq!(config.retry_delay_ms, 0);
    assert_eq!(config.max_retries, 0);
    assert_eq!(config.prefetch_count, 0);
}

#[test]
fn numbers_out_of_range_take_the_default() {
    let mut v = values();
    v.retry_delay_ms = some("18446744073709551616");
    v.max_retries = some("4294967296");
    v.prefetch_count = some("65536");
    let config = Config::from_values(v).expect("a configuration");
    assert_eq!(config.retry_delay_ms, 60000);
    assert_eq!(config.max_retries, 3);
    assert_eq!(config.prefetch_count, 100);
}

#[test]
fn texts_that_are_no_numbers_take_the_default() {
    for bad in ["", "+", "-1", "abc", "12a", " 12", "12 ", "1_000", "1.5", "0x10", "++1", "١٢"] {
        let mut v = values();
        v.retry_delay_ms = some(bad);
        v.max_retries = some(bad);
        v.prefetch_count = some(bad);
        let config = Config::from_values(v).expect("a configuration");
        assert_eq!(config.retry_delay_ms, 60000, "for {:?}", bad);
        assert_eq!(config.max_retries, 3, "for {:?}", bad);
        assert_eq!(config.prefetch_count, 100, "for {:?}", bad);
    }
}

#[test]
fn settings_agree_with_the_standard_parser() {
    for text in [
        "0", "1", "+0", "+7", "007", "65535", "65536", "4294967295", "4294967296",
        "18446744073709551615", "18446744073709551616", "99999999999999999999999", "", "+", "-",
        "-0", "+-1", "1+", "a", "1a", "é", "٣", " 1", "1\n",
    ] {
        assert_eq!(parse_unsigned(text, u64::MAX), text.parse::<u64>().ok(), "u64 {:?}", text);
        assert_eq!(
            parse_unsigned(text, 4294967295),
            text.parse::<u32>().ok().map(u64::from),
            "u32 {:?}",
            text
        );
        assert_eq!(
            parse_unsigned(text, 65535),
            text.parse::<u16>().ok().map(u64::from),
            "u16 {:?}",
            text
        );
    }
}

#[test]
fn missing_queue_url_is_reported_first() {
    let mut v = values();
    v.rabbitmq_url = None;
    v.supabase_url = None;
    v.supabase_service_token = None;
    assert_eq!(Config::from_values(v), Err(ConfigurationError::MissingRabbitmqUrl));
}

#[test]
fn missing_log_store_url_is_reported() {
    let mut v = values();
    v.supabase_url = None;
    v.supabase_service_token = None;
    assert_eq!(Config::from_values(v), Err(ConfigurationError::MissingSupabaseUrl));
}

#[test]
fn missing_token_is_reported() {
    let mut v = values();
    v.supabase_service_token = None;
    assert_eq!(Config::from_values(v), Err(ConfigurationError::MissingSupabaseServiceToken));
}

#[test]
fn empty_required_settings_are_present() {
    let mut v = values();
    v.rabbitmq_url = some("");
    let config = Config::from_values(v).expect("a configuration");
    assert_eq!(config.rabbitmq_url, "");
}

#[test]
fn error_messages_name_the_setting() {
    assert_eq!(
        ConfigurationError::MissingRabbitmqUrl.message(),
        "NUQ_RABBITMQ_URL must be set"
    );
    assert_eq!(ConfigurationError::MissingSupabaseUrl.message(), "SUPABASE_URL must be set");
    assert_eq!(
        ConfigurationError::MissingSupabaseServiceToken.message(),
        "SUPABASE_SERVICE_TOKEN must be set"
    );
}

#[test]
fn parse_unsigned_respects_the_bound() {
    assert_eq!(parse_unsigned("10", 10), Some(10));
    assert_eq!(parse_unsigned("11", 10), None);
    assert_eq!(parse_unsigned("0", 0), Some(0));
    assert_eq!(parse_unsigned("1", 0), None);
    assert_eq!(parse_unsigned("0000000000000000000000000000000000009", 9), Some(9));
    assert_eq!(parse_unsigned("100", 99), None);
}

#[test]
fn render_unsigned_writes_decimal() {
    assert_eq!(render_unsigned(0), "0");
    assert_eq!(render_unsigned(7), "7");
    assert_eq!(render_unsigned(10), "10");
    assert_eq!(render_unsigned(404), "404");
    assert_eq!(render_unsigned(1234567890), "1234567890");
    assert_eq!(render_unsigned(u64::MAX), "18446744073709551615");
}

#[test]
fn rendered_numbers_parse_back() {
    for n in [0u64, 1, 9, 10, 99, 100, 65535, 4294967296, u64::MAX] {
        assert_eq!(parse_unsigned(&render_unsigned(n), u64::MAX), Some(n));
    }
}
