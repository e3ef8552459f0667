//! Outbound proxy configuration.
use vstd::prelude::*;

use super::http_config_error::HttpConfigError;
use super::http_config_error_kind::HttpConfigErrorKind;
use super::proxy_type::{proxy_type_named, ProxyType};
use crate::text::{push_str, trim, trim_seq};

verus! {

/// Outbound proxy configuration applied when building the transport client.
#[derive(Debug)]
pub struct ProxyOptions {
    /// Whether proxy is enabled.
    pub enabled: bool,
    /// Proxy type.
    pub proxy_type: ProxyType,
    /// Proxy host.
    pub host: Option<String>,
    /// Proxy port.
    pub port: Option<u16>,
    /// Proxy username.
    pub username: Option<String>,
    /// Proxy password.
    pub password: Option<String>,
}

/// The view of an optional string.
pub open spec fn opt_view(s: Option<String>) -> Option<Seq<char>> {
    match s {
        Some(v) => Some(v@),
        None => None,
    }
}

/// The first problem `ProxyOptions::validate` reports, as (kind, path,
/// message), or `None` when the options are consistent.
pub open spec fn proxy_problem(
    enabled: bool,
    host: Option<Seq<char>>,
    port: Option<u16>,
    username: Option<Seq<char>>,
    password_set: bool,
) -> Option<(HttpConfigErrorKind, Seq<char>, Seq<char>)> {
    if enabled && host is None {
        Some(
            (
                HttpConfigErrorKind::MissingField,
                "proxy.host"@,
                "Proxy is enabled but host is missing"@,
            ),
        )
    } else if enabled && trim_seq(host->0).len() == 0 {
        Some(
            (
                HttpConfigErrorKind::InvalidValue,
                "proxy.host"@,
                "Proxy host cannot be empty when proxy is enabled"@,
            ),
        )
    } else if enabled && port is None {
        Some(
            (
                HttpConfigErrorKind::MissingField,
                "proxy.port"@,
                "Proxy is enabled but port is missing"@,
            ),
        )
    } else if enabled && port == Some(0u16) {
        Some(
            (
                HttpConfigErrorKind::InvalidValue,
                "proxy.port"@,
                "Proxy port must be greater than 0"@,
            ),
        )
    } else if username is Some && trim_seq(username->0).len() == 0 {
        Some(
            (
                HttpConfigErrorKind::InvalidValue,
                "proxy.username"@,
                "Proxy username cannot be empty when provided"@,
            ),
        )
    } else if username is None && password_set {
        Some(
            (
                HttpConfigErrorKind::MissingField,
                "proxy.username"@,
                "Proxy password is configured but username is missing"@,
            ),
        )
    } else {
        None
    }
}

/// The message of a rejected proxy type name.
pub open spec fn unknown_proxy_type_message(s: Seq<char>) -> Seq<char> {
    "Unknown proxy type '"@ + s + "'; expected http, https, or socks5"@
}

/// Parses a proxy type name (trimmed, case-insensitive), reporting an invalid
/// value at `path` otherwise.
pub fn parse_proxy_type(path: &str, s: &str) -> (r: Result<ProxyType, HttpConfigError>)
    ensures
        match r {
            Ok(t) => proxy_type_named(trim_seq(s@)) == Some(t),
            Err(e) => proxy_type_named(trim_seq(s@)) is None && e@ == (
                HttpConfigErrorKind::InvalidValue,
                path@,
                unknown_proxy_type_message(s@),
            ),
        },
{
    match ProxyType::parse(trim(s)) {
        Some(t) => Ok(t),
        None => {
            let mut message = "Unknown proxy type '".to_owned();
            push_str(&mut message, s);
            push_str(&mut message, "'; expected http, https, or socks5");
            Err(HttpConfigError::from_parts(HttpConfigErrorKind::InvalidValue, path.to_owned(), message))
        },
    }
}

impl ProxyOptions {
    /// The first validation problem of these options, if any.
    pub open spec fn problem(&self) -> Option<(HttpConfigErrorKind, Seq<char>, Seq<char>)> {
        proxy_problem(
            self.enabled,
            opt_view(self.host),
            self.port,
            opt_view(self.username),
            self.password is Some,
        )
    }

    /// Proxy disabled; type HTTP; no host, port, or credentials.
    pub fn default_options() -> (r: Self)
        ensures
            !r.enabled,
            r.proxy_type == ProxyType::Http,
            r.host is None && r.port is None && r.username is None && r.password is None,
    {
        ProxyOptions {
            enabled: false,
            proxy_type: ProxyType::Http,
            host: None,
            port: None,
            username: None,
            password: None,
        }
    }

    /// Builds options from raw configuration values, starting from the
    /// defaults: `enabled` and `proxy_type` replace defaults when present
    /// (the type name parsed as by [`parse_proxy_type`] at path
    /// `proxy_type`); host, port and credentials are taken as given.
    pub fn from_config_input(
        enabled: Option<bool>,
        proxy_type: Option<&str>,
        host: Option<String>,
        port: Option<u16>,
        username: Option<String>,
        password: Option<String>,
    ) -> (r: Result<Self, HttpConfigError>)
        ensures
            match r {
                Ok(o) => {
                    &&& o.enabled == (match enabled {
                        Some(v) => v,
                        None => false,
                    })
                    &&& o.proxy_type == (match proxy_type {
                        Some(s) => proxy_type_named(trim_seq(s@))->0,
                        None => ProxyType::Http,
                    })
                    &&& proxy_type matches Some(s) ==> proxy_type_named(trim_seq(s@)) is Some
                    &&& o.host == host && o.port == port
                    &&& o.username == username && o.password == password
                },
                Err(e) => proxy_type matches Some(s) && proxy_type_named(trim_seq(s@)) is None
                    && e@ == (
                    HttpConfigErrorKind::InvalidValue,
                    "proxy_type"@,
                    unknown_proxy_type_message(s@),
                ),
            },
    {
        let mut opts = ProxyOptions::default_options();
        if let Some(v) = enabled {
            opts.enabled = v;
        }
        if let Some(s) = proxy_type {
            opts.proxy_type = match parse_proxy_type("proxy_type", s) {
                Ok(t) => t,
                Err(e) => return Err(e),
            };
        }
        opts.host = host;
        opts.port = port;
        opts.username = username;
        opts.password = password;
        Ok(opts)
    }

    /// Validates proxy options for internal consistency: when enabled, a
    /// non-blank host and a non-zero port are required; a username must not
    /// be blank; a password requires a username.
    pub fn validate(&self) -> (r: Result<(), HttpConfigError>)
        ensures
            match r {
                Ok(()) => self.problem() is None,
                Err(e) => self.problem() == Some(e@),
            },
    {
        if self.enabled {
            match &self.host {
                None => {
                    return Err(
                        HttpConfigError::missing("proxy.host", "Proxy is enabled but host is missing"),
                    );
                },
                Some(host) => {
                    if trim(host.as_str()).unicode_len() == 0 {
                        return Err(
                            HttpConfigError::invalid_value(
                                "proxy.host",
                                "Proxy host cannot be empty when proxy is enabled",
                            ),
                        );
                    }
                },
            }
            match self.port {
                None => {
                    return Err(
                        HttpConfigError::missing("proxy.port", "Proxy is enabled but port is missing"),
                    );
                },
                Some(port) => {
                    if port == 0 {
                        return Err(
                            HttpConfigError::invalid_value(
                                "proxy.port",
                                "Proxy port must be greater than 0",
                            ),
                        );
                    }
                },
            }
        }
        if let Some(username) = &self.username {
            if trim(username.as_str()).unicode_len() == 0 {
                return Err(
                    HttpConfigError::invalid_value(
                        "proxy.username",
                        "Proxy username cannot be empty when provided",
                    ),
                );
            }
        }
        if self.username.is_none() && self.password.is_some() {
            return Err(
                HttpConfigError::missing(
                    "proxy.username",
                    "Proxy password is configured but username is missing",
                ),
            );
        }
        Ok(())
    }
}

} // verus!
