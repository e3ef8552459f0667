//! Checks on a response or request before its body is used: success status,
//! and cancellation already requested.
use vstd::prelude::*;

use crate::error::http_error::HttpError;
use crate::error::http_error_kind::HttpErrorKind;
use crate::text::{decimal_text, push_decimal, push_str};
use crate::time_span::TimeSpan;

verus! {

/// Names the canonical reason phrase `http::StatusCode::canonical_reason`
/// gives for a code, when it knows one.
pub uninterp spec fn canonical_reason(code: u16) -> Option<Seq<char>>;

/// Calls `http::StatusCode::canonical_reason` for a code in 100..=999.
#[verifier::external_body]
fn status_reason(code: u16) -> (r: Option<&'static str>)
    requires
        100 <= code <= 999,
    ensures
        match r {
            Some(s) => canonical_reason(code) == Some(s@),
            None => canonical_reason(code) is None,
        },
{
    http::StatusCode::from_u16(code).ok().and_then(|s| s.canonical_reason())
}

/// The display text of a status: the code and its reason phrase (or
/// `<unknown status code>`), as `http::StatusCode` displays.
pub open spec fn status_text(code: u16) -> Seq<char> {
    decimal_text(code as nat) + " "@ + match canonical_reason(code) {
        Some(r) => r,
        None => "<unknown status code>"@,
    }
}

/// Whether a status is a success (2xx).
pub open spec fn is_success_status(code: u16) -> bool {
    200 <= code <= 299
}

/// The error of a non-success response: `prefix with status S for M U;
/// response body preview: P`, with status, body preview and `Retry-After`
/// delay attached.
pub fn status_response_error(
    message_prefix: &str,
    status: u16,
    method: &str,
    url: &str,
    body_preview: &str,
    retry_after: Option<TimeSpan>,
) -> (r: HttpError)
    requires
        100 <= status <= 999,
    ensures
        r.kind == HttpErrorKind::Status,
        r.message@ == message_prefix@ + " with status "@ + status_text(status) + " for "@ + method@ + " "@
            + url@ + "; response body preview: "@ + body_preview@,
        r.status == Some(status),
        r.method matches Some(m) && m@ == method@,
        r.url matches Some(u) && u@ == url@,
        r.response_body_preview matches Some(p) && p@ == body_preview@,
        r.retry_after == retry_after,
        r.retry_diagnostics is None,
{
    let mut message = message_prefix.to_owned();
    push_str(&mut message, " with status ");
    push_decimal(&mut message, status as u64);
    push_str(&mut message, " ");
    match status_reason(status) {
        Some(reason) => push_str(&mut message, reason),
        None => push_str(&mut message, "<unknown status code>"),
    }
    push_str(&mut message, " for ");
    push_str(&mut message, method);
    push_str(&mut message, " ");
    push_str(&mut message, url);
    push_str(&mut message, "; response body preview: ");
    push_str(&mut message, body_preview);
    let mut error = HttpError::with_message(HttpErrorKind::Status, message)
        .with_method(method)
        .with_url(url)
        .with_status(status)
        .with_response_body_preview(body_preview);
    if let Some(ra) = retry_after {
        error = error.with_retry_after(ra);
    }
    error
}

/// Passes a success status; turns any other into its status error (see
/// [`status_response_error`]).
pub fn ensure_success_status(
    message_prefix: &str,
    status: u16,
    method: &str,
    url: &str,
    body_preview: &str,
    retry_after: Option<TimeSpan>,
) -> (r: Result<(), HttpError>)
    requires
        100 <= status <= 999,
    ensures
        r is Ok <==> is_success_status(status),
        r matches Err(e) ==> e.kind == HttpErrorKind::Status && e.status == Some(status)
            && e.message@ == message_prefix@ + " with status "@ + status_text(status) + " for "@
            + method@ + " "@ + url@ + "; response body preview: "@ + body_preview@
            && e.retry_after == retry_after,
{
    if 200 <= status && status <= 299 {
        return Ok(());
    }
    Err(status_response_error(message_prefix, status, method, url, body_preview, retry_after))
}

/// A cancellation error for a request whose token was already cancelled.
pub fn cancelled_request_error_if_needed(cancelled: bool, method: &str, url: &str, message: &str) -> (r: Option<
    HttpError,
>)
    ensures
        cancelled == r is Some,
        r matches Some(e) ==> (e.kind == HttpErrorKind::Cancelled && e.message@ == message@ && e.status
            is None && e.retry_after is None),
        r matches Some(e) ==> (e.method matches Some(m) && m@ == method@),
        r matches Some(e) ==> (e.url matches Some(u) && u@ == url@),
{
    if cancelled {
        Some(HttpError::cancelled(message).with_method(method).with_url(url))
    } else {
        None
    }
}

} // verus!
