//! Classification of transport-layer failures into HTTP error kinds.
use vstd::prelude::*;

use super::http_error::HttpError;
use super::http_error_kind::HttpErrorKind;
use crate::text::push_str;

verus! {

/// Phase of a request in which a transport error happened.
#[derive(Debug, Clone, Copy, PartialEq, Eq, Structural)]
pub enum ReqwestErrorPhase {
    /// Sending the request / waiting for the first response bytes.
    Send,
    /// Reading the response body.
    Read,
}

impl ReqwestErrorPhase {
    /// Returns the snake_case name (`send` or `read`).
    pub fn as_str(&self) -> (r: &'static str)
        ensures
            r@ == (match *self {
                ReqwestErrorPhase::Send => "send"@,
                ReqwestErrorPhase::Read => "read"@,
            }),
    {
        match self {
            ReqwestErrorPhase::Send => "send",
            ReqwestErrorPhase::Read => "read",
        }
    }
}

/// The timeout kind of a timeout in `phase`.
pub open spec fn timeout_kind(phase: ReqwestErrorPhase) -> HttpErrorKind {
    match phase {
        ReqwestErrorPhase::Send => HttpErrorKind::RequestTimeout,
        ReqwestErrorPhase::Read => HttpErrorKind::ReadTimeout,
    }
}

/// Classifies timeout errors from the phase in which they happened.
pub fn classify_timeout_kind(phase: ReqwestErrorPhase) -> (r: HttpErrorKind)
    ensures
        r == timeout_kind(phase),
{
    match phase {
        ReqwestErrorPhase::Send => HttpErrorKind::RequestTimeout,
        ReqwestErrorPhase::Read => HttpErrorKind::ReadTimeout,
    }
}

/// Classifies a transport error: a timeout by its phase, any other error as
/// `default_kind`.
pub fn classify_reqwest_error_kind(
    is_timeout: bool,
    phase: ReqwestErrorPhase,
    default_kind: HttpErrorKind,
) -> (r: HttpErrorKind)
    ensures
        r == if is_timeout {
            timeout_kind(phase)
        } else {
            default_kind
        },
{
    if is_timeout {
        classify_timeout_kind(phase)
    } else {
        default_kind
    }
}

/// The kind of a mapped transport error: a redirect that left the permitted
/// origin is an origin-policy failure; otherwise as
/// [`classify_reqwest_error_kind`].
pub open spec fn backend_error_kind(
    is_timeout: bool,
    origin_violation: bool,
    phase: ReqwestErrorPhase,
    default_kind: HttpErrorKind,
) -> HttpErrorKind {
    if origin_violation {
        HttpErrorKind::OriginPolicy
    } else if is_timeout {
        timeout_kind(phase)
    } else {
        default_kind
    }
}

/// Builds the error for a failed transport request: its kind from the
/// failure's timeout flag, redirect-origin violation and phase, with the
/// request method and URL attached.
pub fn map_backend_error(
    is_timeout: bool,
    origin_violation: bool,
    default_kind: HttpErrorKind,
    phase: ReqwestErrorPhase,
    method: &str,
    url: &str,
) -> (r: HttpError)
    ensures
        r.kind == backend_error_kind(is_timeout, origin_violation, phase, default_kind),
        r.message@ == "HTTP transport request failed"@,
        r.method matches Some(m) && m@ == method@,
        r.url matches Some(u) && u@ == url@,
        r.status is None && r.response_body_preview is None,
        r.retry_after is None && r.retry_diagnostics is None,
        r.source is None && r.log_redaction is None,
{
    let kind = if origin_violation {
        HttpErrorKind::OriginPolicy
    } else {
        classify_reqwest_error_kind(is_timeout, phase, default_kind)
    };
    HttpError::new(kind, "HTTP transport request failed").with_method(method).with_url(url)
}

/// What a transport failure reports about itself: the facts that decide
/// which kind of HTTP error it becomes.
#[derive(Debug, Clone, Copy, PartialEq, Eq, Structural)]
pub struct TransportFailure {
    /// The failure is a timeout.
    pub is_timeout: bool,
    /// The failure happened while connecting.
    pub is_connect: bool,
    /// The failure happened while decoding the response body.
    pub is_decode: bool,
    /// The failure came from a status check of the response.
    pub is_status: bool,
    /// The failure happened while building or sending the request.
    pub is_request: bool,
    /// The failure names the URL it concerns.
    pub has_url: bool,
}

/// The kind of a timeout: while sending, a connect timeout when the failure
/// happened while connecting and a request timeout otherwise; while reading,
/// a read timeout; with no known phase, a request timeout.
pub open spec fn phase_timeout_kind(is_connect: bool, phase: Option<ReqwestErrorPhase>) -> HttpErrorKind {
    match phase {
        Some(ReqwestErrorPhase::Send) => if is_connect {
            HttpErrorKind::ConnectTimeout
        } else {
            HttpErrorKind::RequestTimeout
        },
        Some(ReqwestErrorPhase::Read) => HttpErrorKind::ReadTimeout,
        None => HttpErrorKind::RequestTimeout,
    }
}

/// Classifies a timeout by the phase in which it happened.
pub fn classify_reqwest_timeout_kind(is_connect: bool, phase: Option<ReqwestErrorPhase>) -> (r:
    HttpErrorKind)
    ensures
        r == phase_timeout_kind(is_connect, phase),
{
    match phase {
        Some(ReqwestErrorPhase::Send) => if is_connect {
            HttpErrorKind::ConnectTimeout
        } else {
            HttpErrorKind::RequestTimeout
        },
        Some(ReqwestErrorPhase::Read) => HttpErrorKind::ReadTimeout,
        None => HttpErrorKind::RequestTimeout,
    }
}

/// The kind of a transport failure: a timeout by its phase; then a decode
/// failure, a status failure, a request failure that names no URL (an
/// invalid URL), in that order; anything else is `default_kind`.
pub open spec fn transport_error_kind(
    failure: TransportFailure,
    phase: Option<ReqwestErrorPhase>,
    default_kind: HttpErrorKind,
) -> HttpErrorKind {
    if failure.is_timeout {
        phase_timeout_kind(failure.is_connect, phase)
    } else if failure.is_decode {
        HttpErrorKind::Decode
    } else if failure.is_status {
        HttpErrorKind::Status
    } else if failure.is_request && !failure.has_url {
        HttpErrorKind::InvalidUrl
    } else {
        default_kind
    }
}

/// Builds the error for a transport failure: its kind by
/// [`transport_error_kind`], the message `HTTP transport error: ` followed by
/// the failure's own description, and the request method and URL when known.
pub fn map_reqwest_error(
    failure: TransportFailure,
    description: &str,
    default_kind: HttpErrorKind,
    phase: Option<ReqwestErrorPhase>,
    method: Option<&str>,
    url: Option<&str>,
) -> (r: HttpError)
    ensures
        r.kind == transport_error_kind(failure, phase, default_kind),
        r.message@ == "HTTP transport error: "@ + description@,
        method is None ==> r.method is None,
        method matches Some(m) ==> (r.method matches Some(rm) && rm@ == m@),
        url is None ==> r.url is None,
        url matches Some(u) ==> (r.url matches Some(ru) && ru@ == u@),
        r.status is None && r.response_body_preview is None,
        r.retry_after is None && r.retry_diagnostics is None,
        r.source is None && r.log_redaction is None,
{
    let kind = if failure.is_timeout {
        classify_reqwest_timeout_kind(failure.is_connect, phase)
    } else if failure.is_decode {
        HttpErrorKind::Decode
    } else if failure.is_status {
        HttpErrorKind::Status
    } else if failure.is_request && !failure.has_url {
        HttpErrorKind::InvalidUrl
    } else {
        default_kind
    };
    let mut message = String::new();
    push_str(&mut message, "HTTP transport error: ");
    push_str(&mut message, description);
    let mut result = HttpError::with_message(kind, message);
    if let Some(m) = method {
        result = result.with_method(m);
    }
    if let Some(u) = url {
        result = result.with_url(u);
    }
    result
}

} // verus!
