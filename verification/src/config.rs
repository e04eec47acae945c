//! The worker's configuration.
//!
//! The caller reads the settings from wherever they live and hands them over
//! as optional strings; [`Config::from_values`] checks the required ones and
//! fills in the defaults of the others. The resulting [`Config`] is passed
//! explicitly to whatever needs it.

use crate::models::text_model;
use crate::text::{bounded_value, parse_unsigned};
use vstd::prelude::*;

verus! {

/// The retry delay used when none is configured, in milliseconds.
pub const DEFAULT_RETRY_DELAY_MS: u64 = 60000;

/// The maximum retry count used when none is configured.
pub const DEFAULT_MAX_RETRIES: u32 = 3;

/// The prefetch count used when none is configured.
pub const DEFAULT_PREFETCH_COUNT: u16 = 100;

/// The settings as found, before any check: one optional string each.
#[derive(Debug, PartialEq, Eq)]
pub struct ConfigValues {
    /// The value of `NUQ_RABBITMQ_URL`.
    pub rabbitmq_url: Option<String>,
    /// The value of `SUPABASE_URL`.
    pub supabase_url: Option<String>,
    /// The value of `SUPABASE_SERVICE_TOKEN`.
    pub supabase_service_token: Option<String>,
    /// The value of `WEBHOOK_RETRY_DELAY_MS`.
    pub retry_delay_ms: Option<String>,
    /// The value of `WEBHOOK_MAX_RETRIES`.
    pub max_retries: Option<String>,
    /// The value of `WEBHOOK_PREFETCH_COUNT`.
    pub prefetch_count: Option<String>,
}

/// The model of [`ConfigValues`].
pub struct ConfigValuesModel {
    pub rabbitmq_url: Option<Seq<char>>,
    pub supabase_url: Option<Seq<char>>,
    pub supabase_service_token: Option<Seq<char>>,
    pub retry_delay_ms: Option<Seq<char>>,
    pub max_retries: Option<Seq<char>>,
    pub prefetch_count: Option<Seq<char>>,
}

impl View for ConfigValues {
    type V = ConfigValuesModel;

    open spec fn view(&self) -> ConfigValuesModel {
        ConfigValuesModel {
            rabbitmq_url: text_model(self.rabbitmq_url),
            supabase_url: text_model(self.supabase_url),
            supabase_service_token: text_model(self.supabase_service_token),
            retry_delay_ms: text_model(self.retry_delay_ms),
            max_retries: text_model(self.max_retries),
            prefetch_count: text_model(self.prefetch_count),
        }
    }
}

/// The worker's configuration.
#[derive(Debug, PartialEq, Eq)]
pub struct Config {
    /// The queue connection URL.
    pub rabbitmq_url: String,
    /// The log store's base URL.
    pub supabase_url: String,
    /// The log store's auth token.
    pub supabase_service_token: String,
    /// The wait between two attempts, in milliseconds.
    pub retry_delay_ms: u64,
    /// The attempt limit of one request.
    pub max_retries: u32,
    /// How many messages are held unacknowledged at once.
    pub prefetch_count: u16,
}

/// The model of a [`Config`].
pub struct ConfigModel {
    pub rabbitmq_url: Seq<char>,
    pub supabase_url: Seq<char>,
    pub supabase_service_token: Seq<char>,
    pub retry_delay_ms: u64,
    pub max_retries: u32,
    pub prefetch_count: u16,
}

impl View for Config {
    type V = ConfigModel;

    open spec fn view(&self) -> ConfigModel {
        ConfigModel {
            rabbitmq_url: self.rabbitmq_url@,
            supabase_url: self.supabase_url@,
            supabase_service_token: self.supabase_service_token@,
            retry_delay_ms: self.retry_delay_ms,
            max_retries: self.max_retries,
            prefetch_count: self.prefetch_count,
        }
    }
}

impl Clone for Config {
    /// A copy with the same model.
    fn clone(&self) -> (copy: Self)
        ensures
            copy@ == self@,
    {
        Config {
            rabbitmq_url: self.rabbitmq_url.clone(),
            supabase_url: self.supabase_url.clone(),
            supabase_service_token: self.supabase_service_token.clone(),
            retry_delay_ms: self.retry_delay_ms,
            max_retries: self.max_retries,
            prefetch_count: self.prefetch_count,
        }
    }
}

/// A required setting is missing.
#[derive(Debug, Clone, Copy, PartialEq, Eq, Structural)]
pub enum ConfigurationError {
    /// `NUQ_RABBITMQ_URL` is not set.
    MissingRabbitmqUrl,
    /// `SUPABASE_URL` is not set.
    MissingSupabaseUrl,
    /// `SUPABASE_SERVICE_TOKEN` is not set.
    MissingSupabaseServiceToken,
}

/// The text of a configuration error.
pub open spec fn error_text(error: ConfigurationError) -> Seq<char> {
    match error {
        ConfigurationError::MissingRabbitmqUrl => "NUQ_RABBITMQ_URL must be set"@,
        ConfigurationError::MissingSupabaseUrl => "SUPABASE_URL must be set"@,
        ConfigurationError::MissingSupabaseServiceToken => "SUPABASE_SERVICE_TOKEN must be set"@,
    }
}

impl ConfigurationError {
    /// The error as a message for the operator.
    pub fn message(&self) -> (text: String)
        ensures
            text@ == error_text(*self),
    {
        match self {
            ConfigurationError::MissingRabbitmqUrl => "NUQ_RABBITMQ_URL must be set".to_owned(),
            ConfigurationError::MissingSupabaseUrl => "SUPABASE_URL must be set".to_owned(),
            ConfigurationError::MissingSupabaseServiceToken => {
                "SUPABASE_SERVICE_TOKEN must be set".to_owned()
            },
        }
    }
}

/// The value of a numeric setting: the number that its text denotes where
/// that is at most `max`, and the default where the setting is missing or
/// its text denotes no such number.
pub open spec fn setting_or(text: Option<Seq<char>>, max: nat, default: nat) -> nat {
    match text {
        Some(t) => match bounded_value(t, max) {
            Some(value) => value,
            None => default,
        },
        None => default,
    }
}

/// The configuration that the given values make, or the first required
/// setting that is missing, in the order queue URL, log store URL, token.
pub open spec fn config_of(values: ConfigValuesModel) -> Result<ConfigModel, ConfigurationError> {
    if values.rabbitmq_url is None {
        Err(ConfigurationError::MissingRabbitmqUrl)
    } else if values.supabase_url is None {
        Err(ConfigurationError::MissingSupabaseUrl)
    } else if values.supabase_service_token is None {
        Err(ConfigurationError::MissingSupabaseServiceToken)
    } else {
        Ok(
            ConfigModel {
                rabbitmq_url: values.rabbitmq_url->0,
                supabase_url: values.supabase_url->0,
                supabase_service_token: values.supabase_service_token->0,
                retry_delay_ms: setting_or(
                    values.retry_delay_ms,
                    u64::MAX as nat,
                    DEFAULT_RETRY_DELAY_MS as nat,
                ) as u64,
                max_retries: setting_or(
                    values.max_retries,
                    u32::MAX as nat,
                    DEFAULT_MAX_RETRIES as nat,
                ) as u32,
                prefetch_count: setting_or(
                    values.prefetch_count,
                    u16::MAX as nat,
                    DEFAULT_PREFETCH_COUNT as nat,
                ) as u16,
            },
        )
    }
}

/// Reads a numeric setting.
fn number_or(text: &Option<String>, max: u64, default: u64) -> (value: u64)
    requires
        default <= max,
    ensures
        value == setting_or(text_model(*text), max as nat, default as nat),
        value <= max,
{
    match text {
        Some(t) => match parse_unsigned(t.as_str(), max) {
            Some(value) => value,
            None => default,
        },
        None => default,
    }
}

impl Config {
    /// Builds the configuration from the settings as found.
    ///
    /// Fails on the first required setting that is missing. A numeric setting
    /// that is missing or is no number of its range takes its default.
    pub fn from_values(values: ConfigValues) -> (made: Result<Config, ConfigurationError>)
        ensures
            match made {
                Ok(config) => config_of(values@) == Ok::<ConfigModel, ConfigurationError>(config@),
                Err(error) => config_of(values@) == Err::<ConfigModel, ConfigurationError>(error),
            },
    {
        let retry_delay_ms = number_or(&values.retry_delay_ms, u64::MAX, DEFAULT_RETRY_DELAY_MS);
        let max_retries = number_or(&values.max_retries, 0xffff_ffff, DEFAULT_MAX_RETRIES as u64);
        let prefetch_count = number_or(
            &values.prefetch_count,
            0xffff,
            DEFAULT_PREFETCH_COUNT as u64,
        );
        let rabbitmq_url = match values.rabbitmq_url {
            Some(text) => text,
            None => {
                return Err(ConfigurationError::MissingRabbitmqUrl);
            },
        };
        let supabase_url = match values.supabase_url {
            Some(text) => text,
            None => {
                return Err(ConfigurationError::MissingSupabaseUrl);
            },
        };
        let supabase_service_token = match values.supabase_service_token {
            Some(text) => text,
            None => {
                return Err(ConfigurationError::MissingSupabaseServiceToken);
            },
        };
        Ok(
            Config {
                rabbitmq_url,
                supabase_url,
                supabase_service_token,
                retry_delay_ms,
                max_retries: max_retries as u32,
                prefetch_count: prefetch_count as u16,
            },
        )
    }
}

} // verus!
