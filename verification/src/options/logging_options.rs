//! Which parts of requests and responses are logged, and how much body.
use vstd::prelude::*;

use super::http_config_error::HttpConfigError;
use super::http_config_error_kind::HttpConfigErrorKind;
use crate::constants::DEFAULT_LOG_BODY_SIZE_LIMIT_BYTES;

verus! {

/// Logging switches for request and response headers and bodies, and the
/// maximum number of body bytes written to a log line.
#[derive(Debug, Clone, Copy, PartialEq, Eq, Structural)]
pub struct HttpLoggingOptions {
    /// Master switch for HTTP logging.
    pub enabled: bool,
    /// Whether request headers are logged.
    pub log_request_header: bool,
    /// Whether request bodies are logged.
    pub log_request_body: bool,
    /// Whether response headers are logged.
    pub log_response_header: bool,
    /// Whether response bodies are logged.
    pub log_response_body: bool,
    /// Maximum body bytes logged.
    pub body_size_limit: usize,
}

/// Every switch on, with the default body limit.
pub open spec fn default_logging_options() -> HttpLoggingOptions {
    HttpLoggingOptions {
        enabled: true,
        log_request_header: true,
        log_request_body: true,
        log_response_header: true,
        log_response_body: true,
        body_size_limit: DEFAULT_LOG_BODY_SIZE_LIMIT_BYTES,
    }
}

/// Whether the options are consistent: body logging needs a positive limit.
pub open spec fn logging_options_valid(o: HttpLoggingOptions) -> bool {
    !((o.log_request_body || o.log_response_body) && o.body_size_limit == 0)
}

/// The option (or the default) for an optional configured value.
pub open spec fn or_default<T>(v: Option<T>, d: T) -> T {
    match v {
        Some(x) => x,
        None => d,
    }
}

impl HttpLoggingOptions {
    /// Builds options from raw configuration values: each value that is
    /// present replaces its default. The result is not validated.
    pub fn from_config_input(
        enabled: Option<bool>,
        log_request_header: Option<bool>,
        log_request_body: Option<bool>,
        log_response_header: Option<bool>,
        log_response_body: Option<bool>,
        body_size_limit: Option<usize>,
    ) -> (r: Self)
        ensures
            ({
                let d = default_logging_options();
                r == HttpLoggingOptions {
                    enabled: or_default(enabled, d.enabled),
                    log_request_header: or_default(log_request_header, d.log_request_header),
                    log_request_body: or_default(log_request_body, d.log_request_body),
                    log_response_header: or_default(log_response_header, d.log_response_header),
                    log_response_body: or_default(log_response_body, d.log_response_body),
                    body_size_limit: or_default(body_size_limit, d.body_size_limit),
                }
            }),
    {
        let mut opts = HttpLoggingOptions::default();
        if let Some(v) = enabled {
            opts.enabled = v;
        }
        if let Some(v) = log_request_header {
            opts.log_request_header = v;
        }
        if let Some(v) = log_request_body {
            opts.log_request_body = v;
        }
        if let Some(v) = log_response_header {
            opts.log_response_header = v;
        }
        if let Some(v) = log_response_body {
            opts.log_response_body = v;
        }
        if let Some(v) = body_size_limit {
            opts.body_size_limit = v;
        }
        opts
    }

    /// Rejects body logging with a zero body limit.
    pub fn validate(&self) -> (r: Result<(), HttpConfigError>)
        ensures
            r is Ok <==> logging_options_valid(*self),
            r matches Err(e) ==> e@ == (
                HttpConfigErrorKind::InvalidValue,
                "logging.body_size_limit"@,
                "body_size_limit must be greater than 0 when body logging is enabled"@,
            ),
    {
        if (self.log_request_body || self.log_response_body) && self.body_size_limit == 0 {
            return Err(
                HttpConfigError::invalid_value(
                    "logging.body_size_limit",
                    "body_size_limit must be greater than 0 when body logging is enabled",
                ),
            );
        }
        Ok(())
    }
}

impl Default for HttpLoggingOptions {
    /// Every switch on, with the default body limit of 16 KiB.
    fn default() -> (r: Self)
        ensures
            r == default_logging_options(),
    {
        HttpLoggingOptions {
            enabled: true,
            log_request_header: true,
            log_request_body: true,
            log_response_header: true,
            log_response_body: true,
            body_size_limit: DEFAULT_LOG_BODY_SIZE_LIMIT_BYTES,
        }
    }
}

} // verus!
