//! HTTP error category enum.
use vstd::prelude::*;

use crate::text::compare_str;
use crate::text::Order;

verus! {

/// Category of HTTP errors.
#[derive(Debug, Clone, Copy, PartialEq, Eq, Structural)]
pub enum HttpErrorKind {
    /// URL is invalid or cannot be resolved.
    InvalidUrl,
    /// HTTP client construction failed.
    BuildClient,
    /// Proxy configuration is invalid.
    ProxyConfig,
    /// Connect timeout.
    ConnectTimeout,
    /// Read timeout.
    ReadTimeout,
    /// Write timeout while sending the request.
    WriteTimeout,
    /// Request preparation and header-response timeout.
    SendTimeout,
    /// Whole-request timeout (client/request-level deadline).
    RequestTimeout,
    /// Transport-level request error.
    Transport,
    /// Non-success HTTP status.
    Status,
    /// Response decoding error.
    Decode,
    /// SSE protocol error.
    SseProtocol,
    /// SSE payload decoding error.
    SseDecode,
    /// Request was cancelled or interrupted.
    Cancelled,
    /// Retry budget was exceeded before an application error was captured.
    RetryBudgetExceeded,
    /// Aggregating the response body exceeded its configured limit.
    ResponseBodyTooLarge,
    /// The response body stream has already been taken.
    ResponseBodyAlreadyConsumed,
    /// The request target violates the configured origin policy.
    OriginPolicy,
    /// Any other error.
    Other,
}

/// The snake_case name of each kind, used for display and parsing.
pub open spec fn error_kind_name(kind: HttpErrorKind) -> Seq<char> {
    match kind {
        HttpErrorKind::InvalidUrl => "invalid_url"@,
        HttpErrorKind::BuildClient => "build_client"@,
        HttpErrorKind::ProxyConfig => "proxy_config"@,
        HttpErrorKind::ConnectTimeout => "connect_timeout"@,
        HttpErrorKind::ReadTimeout => "read_timeout"@,
        HttpErrorKind::WriteTimeout => "write_timeout"@,
        HttpErrorKind::SendTimeout => "send_timeout"@,
        HttpErrorKind::RequestTimeout => "request_timeout"@,
        HttpErrorKind::Transport => "transport"@,
        HttpErrorKind::Status => "status"@,
        HttpErrorKind::Decode => "decode"@,
        HttpErrorKind::SseProtocol => "sse_protocol"@,
        HttpErrorKind::SseDecode => "sse_decode"@,
        HttpErrorKind::Cancelled => "cancelled"@,
        HttpErrorKind::RetryBudgetExceeded => "retry_budget_exceeded"@,
        HttpErrorKind::ResponseBodyTooLarge => "response_body_too_large"@,
        HttpErrorKind::ResponseBodyAlreadyConsumed => "response_body_already_consumed"@,
        HttpErrorKind::OriginPolicy => "origin_policy"@,
        HttpErrorKind::Other => "other"@,
    }
}

/// The kind whose snake_case name is exactly `s`, if any.
pub open spec fn error_kind_named(s: Seq<char>) -> Option<HttpErrorKind> {
    if s == "invalid_url"@ {
        Some(HttpErrorKind::InvalidUrl)
    } else if s == "build_client"@ {
        Some(HttpErrorKind::BuildClient)
    } else if s == "proxy_config"@ {
        Some(HttpErrorKind::ProxyConfig)
    } else if s == "connect_timeout"@ {
        Some(HttpErrorKind::ConnectTimeout)
    } else if s == "read_timeout"@ {
        Some(HttpErrorKind::ReadTimeout)
    } else if s == "write_timeout"@ {
        Some(HttpErrorKind::WriteTimeout)
    } else if s == "send_timeout"@ {
        Some(HttpErrorKind::SendTimeout)
    } else if s == "request_timeout"@ {
        Some(HttpErrorKind::RequestTimeout)
    } else if s == "transport"@ {
        Some(HttpErrorKind::Transport)
    } else if s == "status"@ {
        Some(HttpErrorKind::Status)
    } else if s == "decode"@ {
        Some(HttpErrorKind::Decode)
    } else if s == "sse_protocol"@ {
        Some(HttpErrorKind::SseProtocol)
    } else if s == "sse_decode"@ {
        Some(HttpErrorKind::SseDecode)
    } else if s == "cancelled"@ {
        Some(HttpErrorKind::Cancelled)
    } else if s == "retry_budget_exceeded"@ {
        Some(HttpErrorKind::RetryBudgetExceeded)
    } else if s == "response_body_too_large"@ {
        Some(HttpErrorKind::ResponseBodyTooLarge)
    } else if s == "response_body_already_consumed"@ {
        Some(HttpErrorKind::ResponseBodyAlreadyConsumed)
    } else if s == "origin_policy"@ {
        Some(HttpErrorKind::OriginPolicy)
    } else if s == "other"@ {
        Some(HttpErrorKind::Other)
    } else {
        None
    }
}

/// Reading back the name of a kind gives the kind (names are distinct), so
/// `HttpErrorKind::parse(kind.as_str())` is `Some(kind)` for every kind.
pub proof fn law_error_kind_name_round_trip(kind: HttpErrorKind)
    ensures
        error_kind_named(error_kind_name(kind)) == Some(kind),
{
    match kind {
        HttpErrorKind::InvalidUrl => {
            reveal_strlit("invalid_url");
        },
        HttpErrorKind::BuildClient => {
            reveal_strlit("build_client");
            reveal_strlit("invalid_url");
            assert("build_client"@.len() != "invalid_url"@.len());
        },
        HttpErrorKind::ProxyConfig => {
            reveal_strlit("proxy_config");
            reveal_strlit("invalid_url");
            assert("proxy_config"@.len() != "invalid_url"@.len());
            reveal_strlit("build_client");
            assert("proxy_config"@[0] != "build_client"@[0]);
        },
        HttpErrorKind::ConnectTimeout => {
            reveal_strlit("connect_timeout");
            reveal_strlit("invalid_url");
            assert("connect_timeout"@.len() != "invalid_url"@.len());
            reveal_strlit("build_client");
            assert("connect_timeout"@.len() != "build_client"@.len());
            reveal_strlit("proxy_config");
            assert("connect_timeout"@.len() != "proxy_config"@.len());
        },
        HttpErrorKind::ReadTimeout => {
            reveal_strlit("read_timeout");
            reveal_strlit("invalid_url");
            assert("read_timeout"@.len() != "invalid_url"@.len());
            reveal_strlit("build_client");
            assert("read_timeout"@[0] != "build_client"@[0]);
            reveal_strlit("proxy_config");
            assert("read_timeout"@[0] != "proxy_config"@[0]);
            reveal_strlit("connect_timeout");
            assert("read_timeout"@.len() != "connect_timeout"@.len());
        },
        HttpErrorKind::WriteTimeout => {
            reveal_strlit("write_timeout");
            reveal_strlit("invalid_url");
            assert("write_timeout"@.len() != "invalid_url"@.len());
            reveal_strlit("build_client");
            assert("write_timeout"@.len() != "build_client"@.len());
            reveal_strlit("proxy_config");
            assert("write_timeout"@.len() != "proxy_config"@.len());
            reveal_strlit("connect_timeout");
            assert("write_timeout"@.len() != "connect_timeout"@.len());
            reveal_strlit("read_timeout");
            assert("write_timeout"@.len() != "read_timeout"@.len());
        },
        HttpErrorKind::SendTimeout => {
            reveal_strlit("send_timeout");
            reveal_strlit("invalid_url");
            assert("send_timeout"@.len() != "invalid_url"@.len());
            reveal_strlit("build_client");
            assert("send_timeout"@[0] != "build_client"@[0]);
            reveal_strlit("proxy_config");
            assert("send_timeout"@[0] != "proxy_config"@[0]);
            reveal_strlit("connect_timeout");
            assert("send_timeout"@.len() != "connect_timeout"@.len());
            reveal_strlit("read_timeout");
            assert("send_timeout"@[0] != "read_timeout"@[0]);
            reveal_strlit("write_timeout");
            assert("send_timeout"@.len() != "write_timeout"@.len());
        },
        HttpErrorKind::RequestTimeout => {
            reveal_strlit("request_timeout");
            reveal_strlit("invalid_url");
            assert("request_timeout"@.len() != "invalid_url"@.len());
            reveal_strlit("build_client");
            assert("request_timeout"@.len() != "build_client"@.len());
            reveal_strlit("proxy_config");
            assert("request_timeout"@.len() != "proxy_config"@.len());
            reveal_strlit("connect_timeout");
            assert("request_timeout"@[0] != "connect_timeout"@[0]);
            reveal_strlit("read_timeout");
            assert("request_timeout"@.len() != "read_timeout"@.len());
            reveal_strlit("write_timeout");
            assert("request_timeout"@.len() != "write_timeout"@.len());
            reveal_strlit("send_timeout");
            assert("request_timeout"@.len() != "send_timeout"@.len());
        },
        HttpErrorKind::Transport => {
            reveal_strlit("transport");
            reveal_strlit("invalid_url");
            assert("transport"@.len() != "invalid_url"@.len());
            reveal_strlit("build_client");
            assert("transport"@.len() != "build_client"@.len());
            reveal_strlit("proxy_config");
            assert("transport"@.len() != "proxy_config"@.len());
            reveal_strlit("connect_timeout");
            assert("transport"@.len() != "connect_timeout"@.len());
            reveal_strlit("read_timeout");
            assert("transport"@.len() != "read_timeout"@.len());
            reveal_strlit("write_timeout");
            assert("transport"@.len() != "write_timeout"@.len());
            reveal_strlit("send_timeout");
            assert("transport"@.len() != "send_timeout"@.len());
            reveal_strlit("request_timeout");
            assert("transport"@.len() != "request_timeout"@.len());
        },
        HttpErrorKind::Status => {
            reveal_strlit("status");
            reveal_strlit("invalid_url");
            assert("status"@.len() != "invalid_url"@.len());
            reveal_strlit("build_client");
            assert("status"@.len() != "build_client"@.len());
            reveal_strlit("proxy_config");
            assert("status"@.len() != "proxy_config"@.len());
            reveal_strlit("connect_timeout");
            assert("status"@.len() != "connect_timeout"@.len());
            reveal_strlit("read_timeout");
            assert("status"@.len() != "read_timeout"@.len());
            reveal_strlit("write_timeout");
            assert("status"@.len() != "write_timeout"@.len());
            reveal_strlit("send_timeout");
            assert("status"@.len() != "send_timeout"@.len());
            reveal_strlit("request_timeout");
            assert("status"@.len() != "request_timeout"@.len());
            reveal_strlit("transport");
            assert("status"@.len() != "transport"@.len());
        },
        HttpErrorKind::Decode => {
            reveal_strlit("decode");
            reveal_strlit("invalid_url");
            assert("decode"@.len() != "invalid_url"@.len());
            reveal_strlit("build_client");
            assert("decode"@.len() != "build_client"@.len());
            reveal_strlit("proxy_config");
            assert("decode"@.len() != "proxy_config"@.len());
            reveal_strlit("connect_timeout");
            assert("decode"@.len() != "connect_timeout"@.len());
            reveal_strlit("read_timeout");
            assert("decode"@.len() != "read_timeout"@.len());
            reveal_strlit("write_timeout");
            assert("decode"@.len() != "write_timeout"@.len());
            reveal_strlit("send_timeout");
            assert("decode"@.len() != "send_timeout"@.len());
            reveal_strlit("request_timeout");
            assert("decode"@.len() != "request_timeout"@.len());
            reveal_strlit("transport");
            assert("decode"@.len() != "transport"@.len());
            reveal_strlit("status");
            assert("decode"@[0] != "status"@[0]);
        },
        HttpErrorKind::SseProtocol => {
            reveal_strlit("sse_protocol");
            reveal_strlit("invalid_url");
            assert("sse_protocol"@.len() != "invalid_url"@.len());
            reveal_strlit("build_client");
            assert("sse_protocol"@[0] != "build_client"@[0]);
            reveal_strlit("proxy_config");
            assert("sse_protocol"@[0] != "proxy_config"@[0]);
            reveal_strlit("connect_timeout");
            assert("sse_protocol"@.len() != "connect_timeout"@.len());
            reveal_strlit("read_timeout");
            assert("sse_protocol"@[0] != "read_timeout"@[0]);
            reveal_strlit("write_timeout");
            assert("sse_protocol"@.len() != "write_timeout"@.len());
            reveal_strlit("send_timeout");
            assert("sse_protocol"@[1] != "send_timeout"@[1]);
            reveal_strlit("request_timeout");
            assert("sse_protocol"@.len() != "request_timeout"@.len());
            reveal_strlit("transport");
            assert("sse_protocol"@.len() != "transport"@.len());
            reveal_strlit("status");
            assert("sse_protocol"@.len() != "status"@.len());
            reveal_strlit("decode");
            assert("sse_protocol"@.len() != "decode"@.len());
        },
        HttpErrorKind::SseDecode => {
            reveal_strlit("sse_decode");
            reveal_strlit("invalid_url");
            assert("sse_decode"@.len() != "invalid_url"@.len());
            reveal_strlit("build_client");
            assert("sse_decode"@.len() != "build_client"@.len());
            reveal_strlit("proxy_config");
            assert("sse_decode"@.len() != "proxy_config"@.len());
            reveal_strlit("connect_timeout");
            assert("sse_decode"@.len() != "connect_timeout"@.len());
            reveal_strlit("read_timeout");
            assert("sse_decode"@.len() != "read_timeout"@.len());
            reveal_strlit("write_timeout");
            assert("sse_decode"@.len() != "write_timeout"@.len());
            reveal_strlit("send_timeout");
            assert("sse_decode"@.len() != "send_timeout"@.len());
            reveal_strlit("request_timeout");
            assert("sse_decode"@.len() != "request_timeout"@.len());
            reveal_strlit("transport");
            assert("sse_decode"@.len() != "transport"@.len());
            reveal_strlit("status");
            assert("sse_decode"@.len() != "status"@.len());
            reveal_strlit("decode");
            assert("sse_decode"@.len() != "decode"@.len());
            reveal_strlit("sse_protocol");
            assert("sse_decode"@.len() != "sse_protocol"@.len());
        },
        HttpErrorKind::Cancelled => {
            reveal_strlit("cancelled");
            reveal_strlit("invalid_url");
            assert("cancelled"@.len() != "invalid_url"@.len());
            reveal_strlit("build_client");
            assert("cancelled"@.len() != "build_client"@.len());
            reveal_strlit("proxy_config");
            assert("cancelled"@.len() != "proxy_config"@.len());
            reveal_strlit("connect_timeout");
            assert("cancelled"@.len() != "connect_timeout"@.len());
            reveal_strlit("read_timeout");
            assert("cancelled"@.len() != "read_timeout"@.len());
            reveal_strlit("write_timeout");
            assert("cancelled"@.len() != "write_timeout"@.len());
            reveal_strlit("send_timeout");
            assert("cancelled"@.len() != "send_timeout"@.len());
            reveal_strlit("request_timeout");
            assert("cancelled"@.len() != "request_timeout"@.len());
            reveal_strlit("transport");
            assert("cancelled"@[0] != "transport"@[0]);
            reveal_strlit("status");
            assert("cancelled"@.len() != "status"@.len());
            reveal_strlit("decode");
            assert("cancelled"@.len() != "decode"@.len());
            reveal_strlit("sse_protocol");
            assert("cancelled"@.len() != "sse_protocol"@.len());
            reveal_strlit("sse_decode");
            assert("cancelled"@.len() != "sse_decode"@.len());
        },
        HttpErrorKind::RetryBudgetExceeded => {
            reveal_strlit("retry_budget_exceeded");
            reveal_strlit("invalid_url");
            assert("retry_budget_exceeded"@.len() != "invalid_url"@.len());
            reveal_strlit("build_client");
            assert("retry_budget_exceeded"@.len() != "build_client"@.len());
            reveal_strlit("proxy_config");
            assert("retry_budget_exceeded"@.len() != "proxy_config"@.len());
            reveal_strlit("connect_timeout");
            assert("retry_budget_exceeded"@.len() != "connect_timeout"@.len());
            reveal_strlit("read_timeout");
            assert("retry_budget_exceeded"@.len() != "read_timeout"@.len());
            reveal_strlit("write_timeout");
            assert("retry_budget_exceeded"@.len() != "write_timeout"@.len());
            reveal_strlit("send_timeout");
            assert("retry_budget_exceeded"@.len() != "send_timeout"@.len());
            reveal_strlit("request_timeout");
            assert("retry_budget_exceeded"@.len() != "request_timeout"@.len());
            reveal_strlit("transport");
            assert("retry_budget_exceeded"@.len() != "transport"@.len());
            reveal_strlit("status");
            assert("retry_budget_exceeded"@.len() != "status"@.len());
            reveal_strlit("decode");
            assert("retry_budget_exceeded"@.len() != "decode"@.len());
            reveal_strlit("sse_protocol");
            assert("retry_budget_exceeded"@.len() != "sse_protocol"@.len());
            reveal_strlit("sse_decode");
            assert("retry_budget_exceeded"@.len() != "sse_decode"@.len());
            reveal_strlit("cancelled");
            assert("retry_budget_exceeded"@.len() != "cancelled"@.len());
        },
        HttpErrorKind::ResponseBodyTooLarge => {
            reveal_strlit("response_body_too_large");
            reveal_strlit("invalid_url");
            assert("response_body_too_large"@.len() != "invalid_url"@.len());
            reveal_strlit("build_client");
            assert("response_body_too_large"@.len() != "build_client"@.len());
            reveal_strlit("proxy_config");
            assert("response_body_too_large"@.len() != "proxy_config"@.len());
            reveal_strlit("connect_timeout");
            assert("response_body_too_large"@.len() != "connect_timeout"@.len());
            reveal_strlit("read_timeout");
            assert("response_body_too_large"@.len() != "read_timeout"@.len());
            reveal_strlit("write_timeout");
            assert("response_body_too_large"@.len() != "write_timeout"@.len());
            reveal_strlit("send_timeout");
            assert("response_body_too_large"@.len() != "send_timeout"@.len());
            reveal_strlit("request_timeout");
            assert("response_body_too_large"@.len() != "request_timeout"@.len());
            reveal_strlit("transport");
            assert("response_body_too_large"@.len() != "transport"@.len());
            reveal_strlit("status");
            assert("response_body_too_large"@.len() != "status"@.len());
            reveal_strlit("decode");
            assert("response_body_too_large"@.len() != "decode"@.len());
            reveal_strlit("sse_protocol");
            assert("response_body_too_large"@.len() != "sse_protocol"@.len());
            reveal_strlit("sse_decode");
            assert("response_body_too_large"@.len() != "sse_decode"@.len());
            reveal_strlit("cancelled");
            assert("response_body_too_large"@.len() != "cancelled"@.len());
            reveal_strlit("retry_budget_exceeded");
            assert("response_body_too_large"@.len() != "retry_budget_exceeded"@.len());
        },
        HttpErrorKind::ResponseBodyAlreadyConsumed => {
            reveal_strlit("response_body_already_consumed");
            reveal_strlit("invalid_url");
            assert("response_body_already_consumed"@.len() != "invalid_url"@.len());
            reveal_strlit("build_client");
            assert("response_body_already_consumed"@.len() != "build_client"@.len());
            reveal_strlit("proxy_config");
            assert("response_body_already_consumed"@.len() != "proxy_config"@.len());
            reveal_strlit("connect_timeout");
            assert("response_body_already_consumed"@.len() != "connect_timeout"@.len());
            reveal_strlit("read_timeout");
            assert("response_body_already_consumed"@.len() != "read_timeout"@.len());
            reveal_strlit("write_timeout");
            assert("response_body_already_consumed"@.len() != "write_timeout"@.len());
            reveal_strlit("send_timeout");
            assert("response_body_already_consumed"@.len() != "send_timeout"@.len());
            reveal_strlit("request_timeout");
            assert("response_body_already_consumed"@.len() != "request_timeout"@.len());
            reveal_strlit("transport");
            assert("response_body_already_consumed"@.len() != "transport"@.len());
            reveal_strlit("status");
            assert("response_body_already_consumed"@.len() != "status"@.len());
            reveal_strlit("decode");
            assert("response_body_already_consumed"@.len() != "decode"@.len());
            reveal_strlit("sse_protocol");
            assert("response_body_already_consumed"@.len() != "sse_protocol"@.len());
            reveal_strlit("sse_decode");
            assert("response_body_already_consumed"@.len() != "sse_decode"@.len());
            reveal_strlit("cancelled");
            assert("response_body_already_consumed"@.len() != "cancelled"@.len());
            reveal_strlit("retry_budget_exceeded");
            assert("response_body_already_consumed"@.len() != "retry_budget_exceeded"@.len());
            reveal_strlit("response_body_too_large");
            assert("response_body_already_consumed"@.len() != "response_body_too_large"@.len());
        },
        HttpErrorKind::OriginPolicy => {
            reveal_strlit("origin_policy");
            reveal_strlit("invalid_url");
            assert("origin_policy"@.len() != "invalid_url"@.len());
            reveal_strlit("build_client");
            assert("origin_policy"@.len() != "build_client"@.len());
            reveal_strlit("proxy_config");
            assert("origin_policy"@.len() != "proxy_config"@.len());
            reveal_strlit("connect_timeout");
            assert("origin_policy"@.len() != "connect_timeout"@.len());
            reveal_strlit("read_timeout");
            assert("origin_policy"@.len() != "read_timeout"@.len());
            reveal_strlit("write_timeout");
            assert("origin_policy"@[0] != "write_timeout"@[0]);
            reveal_strlit("send_timeout");
            assert("origin_policy"@.len() != "send_timeout"@.len());
            reveal_strlit("request_timeout");
            assert("origin_policy"@.len() != "request_timeout"@.len());
            reveal_strlit("transport");
            assert("origin_policy"@.len() != "transport"@.len());
            reveal_strlit("status");
            assert("origin_policy"@.len() != "status"@.len());
            reveal_strlit("decode");
            assert("origin_policy"@.len() != "decode"@.len());
            reveal_strlit("sse_protocol");
            assert("origin_policy"@.len() != "sse_protocol"@.len());
            reveal_strlit("sse_decode");
            assert("origin_policy"@.len() != "sse_decode"@.len());
            reveal_strlit("cancelled");
            assert("origin_policy"@.len() != "cancelled"@.len());
            reveal_strlit("retry_budget_exceeded");
            assert("origin_policy"@.len() != "retry_budget_exceeded"@.len());
            reveal_strlit("response_body_too_large");
            assert("origin_policy"@.len() != "response_body_too_large"@.len());
            reveal_strlit("response_body_already_consumed");
            assert("origin_policy"@.len() != "response_body_already_consumed"@.len());
        },
        HttpErrorKind::Other => {
            reveal_strlit("other");
            reveal_strlit("invalid_url");
            assert("other"@.len() != "invalid_url"@.len());
            reveal_strlit("build_client");
            assert("other"@.len() != "build_client"@.len());
            reveal_strlit("proxy_config");
            assert("other"@.len() != "proxy_config"@.len());
            reveal_strlit("connect_timeout");
            assert("other"@.len() != "connect_timeout"@.len());
            reveal_strlit("read_timeout");
            assert("other"@.len() != "read_timeout"@.len());
            reveal_strlit("write_timeout");
            assert("other"@.len() != "write_timeout"@.len());
            reveal_strlit("send_timeout");
            assert("other"@.len() != "send_timeout"@.len());
            reveal_strlit("request_timeout");
            assert("other"@.len() != "request_timeout"@.len());
            reveal_strlit("transport");
            assert("other"@.len() != "transport"@.len());
            reveal_strlit("status");
            assert("other"@.len() != "status"@.len());
            reveal_strlit("decode");
            assert("other"@.len() != "decode"@.len());
            reveal_strlit("sse_protocol");
            assert("other"@.len() != "sse_protocol"@.len());
            reveal_strlit("sse_decode");
            assert("other"@.len() != "sse_decode"@.len());
            reveal_strlit("cancelled");
            assert("other"@.len() != "cancelled"@.len());
            reveal_strlit("retry_budget_exceeded");
            assert("other"@.len() != "retry_budget_exceeded"@.len());
            reveal_strlit("response_body_too_large");
            assert("other"@.len() != "response_body_too_large"@.len());
            reveal_strlit("response_body_already_consumed");
            assert("other"@.len() != "response_body_already_consumed"@.len());
            reveal_strlit("origin_policy");
            assert("other"@.len() != "origin_policy"@.len());
        },
    }
}

impl HttpErrorKind {
    /// Returns the snake_case name of this kind (e.g. `invalid_url`).
    pub fn as_str(&self) -> (r: &'static str)
        ensures
            r@ == error_kind_name(*self),
    {
        match self {
            HttpErrorKind::InvalidUrl => "invalid_url",
            HttpErrorKind::BuildClient => "build_client",
            HttpErrorKind::ProxyConfig => "proxy_config",
            HttpErrorKind::ConnectTimeout => "connect_timeout",
            HttpErrorKind::ReadTimeout => "read_timeout",
            HttpErrorKind::WriteTimeout => "write_timeout",
            HttpErrorKind::SendTimeout => "send_timeout",
            HttpErrorKind::RequestTimeout => "request_timeout",
            HttpErrorKind::Transport => "transport",
            HttpErrorKind::Status => "status",
            HttpErrorKind::Decode => "decode",
            HttpErrorKind::SseProtocol => "sse_protocol",
            HttpErrorKind::SseDecode => "sse_decode",
            HttpErrorKind::Cancelled => "cancelled",
            HttpErrorKind::RetryBudgetExceeded => "retry_budget_exceeded",
            HttpErrorKind::ResponseBodyTooLarge => "response_body_too_large",
            HttpErrorKind::ResponseBodyAlreadyConsumed => "response_body_already_consumed",
            HttpErrorKind::OriginPolicy => "origin_policy",
            HttpErrorKind::Other => "other",
        }
    }

    /// Parses a kind from its exact snake_case name.
    pub fn parse(s: &str) -> (r: Option<HttpErrorKind>)
        ensures
            r == error_kind_named(s@),
            match r {
                Some(kind) => error_kind_name(kind) == s@,
                None => forall|kind: HttpErrorKind| error_kind_name(kind) != s@,
            },
    {
        if compare_str(s, "invalid_url") == Order::Equal {
            return Some(HttpErrorKind::InvalidUrl);
        }
        if compare_str(s, "build_client") == Order::Equal {
            return Some(HttpErrorKind::BuildClient);
        }
        if compare_str(s, "proxy_config") == Order::Equal {
            return Some(HttpErrorKind::ProxyConfig);
        }
        if compare_str(s, "connect_timeout") == Order::Equal {
            return Some(HttpErrorKind::ConnectTimeout);
        }
        if compare_str(s, "read_timeout") == Order::Equal {
            return Some(HttpErrorKind::ReadTimeout);
        }
        if compare_str(s, "write_timeout") == Order::Equal {
            return Some(HttpErrorKind::WriteTimeout);
        }
        if compare_str(s, "send_timeout") == Order::Equal {
            return Some(HttpErrorKind::SendTimeout);
        }
        if compare_str(s, "request_timeout") == Order::Equal {
            return Some(HttpErrorKind::RequestTimeout);
        }
        if compare_str(s, "transport") == Order::Equal {
            return Some(HttpErrorKind::Transport);
        }
        if compare_str(s, "status") == Order::Equal {
            return Some(HttpErrorKind::Status);
        }
        if compare_str(s, "decode") == Order::Equal {
            return Some(HttpErrorKind::Decode);
        }
        if compare_str(s, "sse_protocol") == Order::Equal {
            return Some(HttpErrorKind::SseProtocol);
        }
        if compare_str(s, "sse_decode") == Order::Equal {
            return Some(HttpErrorKind::SseDecode);
        }
        if compare_str(s, "cancelled") == Order::Equal {
            return Some(HttpErrorKind::Cancelled);
        }
        if compare_str(s, "retry_budget_exceeded") == Order::Equal {
            return Some(HttpErrorKind::RetryBudgetExceeded);
        }
        if compare_str(s, "response_body_too_large") == Order::Equal {
            return Some(HttpErrorKind::ResponseBodyTooLarge);
        }
        if compare_str(s, "response_body_already_consumed") == Order::Equal {
            return Some(HttpErrorKind::ResponseBodyAlreadyConsumed);
        }
        if compare_str(s, "origin_policy") == Order::Equal {
            return Some(HttpErrorKind::OriginPolicy);
        }
        if compare_str(s, "other") == Order::Equal {
            return Some(HttpErrorKind::Other);
        }
        proof {
            assert forall|kind: HttpErrorKind| error_kind_name(kind) != s@ by {
                match kind {
                    HttpErrorKind::InvalidUrl => {},
                    HttpErrorKind::BuildClient => {},
                    HttpErrorKind::ProxyConfig => {},
                    HttpErrorKind::ConnectTimeout => {},
                    HttpErrorKind::ReadTimeout => {},
                    HttpErrorKind::WriteTimeout => {},
                    HttpErrorKind::SendTimeout => {},
                    HttpErrorKind::RequestTimeout => {},
                    HttpErrorKind::Transport => {},
                    HttpErrorKind::Status => {},
                    HttpErrorKind::Decode => {},
                    HttpErrorKind::SseProtocol => {},
                    HttpErrorKind::SseDecode => {},
                    HttpErrorKind::Cancelled => {},
                    HttpErrorKind::RetryBudgetExceeded => {},
                    HttpErrorKind::ResponseBodyTooLarge => {},
                    HttpErrorKind::ResponseBodyAlreadyConsumed => {},
                    HttpErrorKind::OriginPolicy => {},
                    HttpErrorKind::Other => {},
                }
            }
        }
        None
    }
}

} // verus!
