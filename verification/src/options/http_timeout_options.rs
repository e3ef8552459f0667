//! Connect, read, write and whole-request timeouts.
use vstd::prelude::*;

use super::http_config_error::HttpConfigError;
use super::http_config_error_kind::HttpConfigErrorKind;
use crate::constants::{
    DEFAULT_CONNECT_TIMEOUT_SECS, DEFAULT_READ_TIMEOUT_SECS, DEFAULT_WRITE_TIMEOUT_SECS,
};
use crate::time_span::TimeSpan;

verus! {

/// Timeout settings: connecting, reading, writing, and an optional bound on
/// the whole request.
#[derive(Debug, Clone, Copy, PartialEq, Eq, Structural)]
pub struct HttpTimeoutOptions {
    /// Maximum time to establish a connection.
    pub connect_timeout: TimeSpan,
    /// Maximum time without progress while reading a response.
    pub read_timeout: TimeSpan,
    /// Maximum time to send a request.
    pub write_timeout: TimeSpan,
    /// Optional bound on the whole request, when set.
    pub request_timeout: Option<TimeSpan>,
}

/// The message of a zero timeout.
pub open spec fn zero_timeout_message() -> Seq<char> {
    "Timeout value must be greater than 0"@
}

/// The path of the first zero timeout, in the order connect, read, write,
/// request; `None` when every timeout is positive.
pub open spec fn timeout_problem(o: HttpTimeoutOptions) -> Option<Seq<char>> {
    if o.connect_timeout@ == 0 {
        Some("connect_timeout"@)
    } else if o.read_timeout@ == 0 {
        Some("read_timeout"@)
    } else if o.write_timeout@ == 0 {
        Some("write_timeout"@)
    } else if o.request_timeout is Some && o.request_timeout->0@ == 0 {
        Some("request_timeout"@)
    } else {
        None
    }
}

/// Rejects a zero timeout, reporting an invalid value at `path`.
pub fn validate_positive_duration(path: &str, value: TimeSpan) -> (r: Result<(), HttpConfigError>)
    ensures
        r is Ok <==> value@ != 0,
        r matches Err(e) ==> e@ == (HttpConfigErrorKind::InvalidValue, path@, zero_timeout_message()),
{
    if value.is_zero() {
        return Err(HttpConfigError::invalid_value(path, "Timeout value must be greater than 0"));
    }
    Ok(())
}

impl HttpTimeoutOptions {
    /// Connect 10 s, read 120 s, write 120 s, no whole-request timeout.
    pub fn default_options() -> (r: Self)
        ensures
            r == Self::default_options_spec(),
            r.connect_timeout@ == DEFAULT_CONNECT_TIMEOUT_SECS * 1_000_000_000,
            r.read_timeout@ == DEFAULT_READ_TIMEOUT_SECS * 1_000_000_000,
            r.write_timeout@ == DEFAULT_WRITE_TIMEOUT_SECS * 1_000_000_000,
            r.request_timeout is None,
    {
        HttpTimeoutOptions {
            connect_timeout: TimeSpan::from_secs(DEFAULT_CONNECT_TIMEOUT_SECS),
            read_timeout: TimeSpan::from_secs(DEFAULT_READ_TIMEOUT_SECS),
            write_timeout: TimeSpan::from_secs(DEFAULT_WRITE_TIMEOUT_SECS),
            request_timeout: None,
        }
    }

    /// Checks that every configured timeout is positive; the error names the
    /// first zero timeout.
    pub fn validate(&self) -> (r: Result<(), HttpConfigError>)
        ensures
            match r {
                Ok(()) => timeout_problem(*self) is None,
                Err(e) => timeout_problem(*self) matches Some(p) && e@ == (
                    HttpConfigErrorKind::InvalidValue,
                    p,
                    zero_timeout_message(),
                ),
            },
    {
        validate_positive_duration("connect_timeout", self.connect_timeout)?;
        validate_positive_duration("read_timeout", self.read_timeout)?;
        validate_positive_duration("write_timeout", self.write_timeout)?;
        if let Some(request_timeout) = self.request_timeout {
            validate_positive_duration("request_timeout", request_timeout)?;
        }
        Ok(())
    }

    /// Builds options from raw configuration values: each timeout that is
    /// present replaces its default, the whole-request timeout is taken as
    /// given, and the result is validated.
    pub fn from_config_input(
        connect_timeout: Option<TimeSpan>,
        read_timeout: Option<TimeSpan>,
        write_timeout: Option<TimeSpan>,
        request_timeout: Option<TimeSpan>,
    ) -> (r: Result<Self, HttpConfigError>)
        ensures
            ({
                let d = Self::default_options_spec();
                let o = HttpTimeoutOptions {
                    connect_timeout: match connect_timeout {
                        Some(t) => t,
                        None => d.connect_timeout,
                    },
                    read_timeout: match read_timeout {
                        Some(t) => t,
                        None => d.read_timeout,
                    },
                    write_timeout: match write_timeout {
                        Some(t) => t,
                        None => d.write_timeout,
                    },
                    request_timeout,
                };
                match r {
                    Ok(v) => v == o && timeout_problem(o) is None,
                    Err(e) => timeout_problem(o) matches Some(p) && e@ == (
                        HttpConfigErrorKind::InvalidValue,
                        p,
                        zero_timeout_message(),
                    ),
                }
            }),
    {
        let mut opts = HttpTimeoutOptions::default_options();
        if let Some(t) = connect_timeout {
            opts.connect_timeout = t;
        }
        if let Some(t) = read_timeout {
            opts.read_timeout = t;
        }
        if let Some(t) = write_timeout {
            opts.write_timeout = t;
        }
        opts.request_timeout = request_timeout;
        opts.validate()?;
        Ok(opts)
    }

    /// The default options as a value.
    pub open spec fn default_options_spec() -> Self {
        HttpTimeoutOptions {
            connect_timeout: TimeSpan::spec_from_secs(DEFAULT_CONNECT_TIMEOUT_SECS),
            read_timeout: TimeSpan::spec_from_secs(DEFAULT_READ_TIMEOUT_SECS),
            write_timeout: TimeSpan::spec_from_secs(DEFAULT_WRITE_TIMEOUT_SECS),
            request_timeout: None,
        }
    }
}

impl Default for HttpTimeoutOptions {
    /// Same as [`HttpTimeoutOptions::default_options`].
    fn default() -> (r: Self)
        ensures
            r == Self::default_options_spec(),
    {
        Self::default_options()
    }
}

} // verus!
