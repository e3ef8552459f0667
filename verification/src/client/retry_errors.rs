//! Turning the end of a retry flow into the crate's error model.
use vstd::prelude::*;

use crate::error::http_error::{clone_opt_string, opt_rules, ErrorSource, HttpError};
use crate::error::http_error_kind::HttpErrorKind;
use crate::error::http_retry_diagnostics::HttpRetryDiagnostics;
use crate::error::http_retry_termination::HttpRetryTermination;
use crate::options::http_retry_options::{kind_retryable_under, opt_seq, status_retryable_under, HttpRetryOptions};
use crate::options::proxy_options::opt_view;
use crate::text::{decimal_text, push_decimal, push_str};
use crate::time_span::TimeSpan;

verus! {

/// Why a retry flow stopped, with the display text of its details.
#[derive(Debug)]
pub enum RetryStop {
    /// A retry rule stopped the flow after an attempt failed.
    Aborted,
    /// The attempt limit was reached.
    AttemptsExhausted,
    /// The operation or total elapsed-time limit was reached.
    ElapsedExhausted,
    /// A hard timeout of the given scope expired.
    TimedOut { scope: String },
    /// External cancellation during the given phase.
    Cancelled { phase: String },
    /// A retry callback failed.
    CallbackFailed { callback: String },
    /// Retry infrastructure (clock, timer) failed.
    Infrastructure { failure: String },
    /// Any other reason, by its display text.
    Other { reason: String },
}

/// The terminal condition recorded for each reason.
pub open spec fn termination_of(stop: RetryStop) -> HttpRetryTermination {
    match stop {
        RetryStop::Aborted => HttpRetryTermination::Aborted,
        RetryStop::AttemptsExhausted => HttpRetryTermination::AttemptsExhausted,
        RetryStop::ElapsedExhausted => HttpRetryTermination::DurationExceeded,
        RetryStop::TimedOut { .. } => HttpRetryTermination::DurationExceeded,
        RetryStop::Cancelled { .. } => HttpRetryTermination::Cancelled,
        _ => HttpRetryTermination::Aborted,
    }
}

/// Names what `format!("{:?}", Duration::new(secs, nanos))` gives.
pub uninterp spec fn duration_debug(secs: u64, nanos: u32) -> Seq<char>;

/// The `Debug` text of a span.
pub open spec fn span_debug(t: TimeSpan) -> Seq<char> {
    duration_debug(t.spec_secs(), t.spec_subsec_nanos())
}

/// Formats a span as `std::time::Duration`'s `Debug` output.
#[verifier::external_body]
pub(crate) fn span_debug_text(t: TimeSpan) -> (r: String)
    ensures
        r@ == duration_debug(t.spec_secs(), t.spec_subsec_nanos()),
{
    format!("{:?}", std::time::Duration::new(t.secs(), t.subsec_nanos()))
}

/// `r` carries the request and response context of `e`, with `message`,
/// and no retry diagnostics yet.
pub open spec fn projects(r: HttpError, e: HttpError, message: Seq<char>) -> bool {
    &&& r.kind == e.kind
    &&& r.message@ == message
    &&& r.method == e.method
    &&& r.url == e.url
    &&& r.status == e.status
    &&& r.response_body_preview == e.response_body_preview
    &&& r.retry_after == e.retry_after
    &&& opt_rules(r.log_redaction) == opt_rules(e.log_redaction)
}

/// `r` is an error of `kind` with `message` and no request or response
/// context.
pub open spec fn plain(r: HttpError, kind: HttpErrorKind, message: Seq<char>) -> bool {
    &&& r.kind == kind
    &&& r.message@ == message
    &&& r.method is None && r.url is None && r.status is None
    &&& r.response_body_preview is None && r.retry_after is None
}

/// `message (detail)`.
pub open spec fn with_detail(message: Seq<char>, detail: Seq<char>) -> Seq<char> {
    message + " ("@ + detail + ")"@
}

/// ` after N attempt(s)`.
pub open spec fn after_attempts(attempts: u32) -> Seq<char> {
    " after "@ + decimal_text(attempts as nat) + " attempt(s)"@
}

/// Whether `r` is the error a retry flow that stopped for `stop` after
/// `attempts` attempts reports, before diagnostics are attached.
pub open spec fn retry_error_matches(
    r: HttpError,
    stop: RetryStop,
    attempts: u32,
    max_duration: Option<TimeSpan>,
    max_attempts: u32,
    last_error: Option<HttpError>,
    method: Seq<char>,
    url: Option<Seq<char>>,
) -> bool {
    match stop {
        RetryStop::Cancelled { phase } => {
            &&& r.kind == HttpErrorKind::Cancelled
            &&& r.message@ == "HTTP retry cancelled during "@ + phase@
            &&& opt_view(r.method) == Some(method)
            &&& opt_view(r.url) == url
            &&& r.status is None && r.response_body_preview is None && r.retry_after is None
        },
        RetryStop::TimedOut { scope } => match last_error {
            Some(e) => projects(r, e, e.message@),
            None => plain(
                r,
                HttpErrorKind::RetryBudgetExceeded,
                "HTTP retry "@ + scope@ + " timed out"@ + after_attempts(attempts),
            ),
        },
        RetryStop::CallbackFailed { callback } => plain(
            r,
            HttpErrorKind::Other,
            "HTTP retry callback failed"@ + after_attempts(attempts) + ": "@ + callback@,
        ),
        RetryStop::Infrastructure { failure } => plain(
            r,
            HttpErrorKind::Other,
            "HTTP retry infrastructure failed"@ + after_attempts(attempts) + ": "@ + failure@,
        ),
        RetryStop::Aborted => projects(r, last_error->0, last_error->0.message@),
        RetryStop::AttemptsExhausted => projects(
            r,
            last_error->0,
            with_detail(
                last_error->0.message@,
                "retry attempts exhausted: "@ + decimal_text(attempts as nat) + "/"@ + decimal_text(
                    max_attempts as nat,
                ),
            ),
        ),
        RetryStop::ElapsedExhausted => match last_error {
            Some(e) => projects(
                r,
                e,
                with_detail(e.message@, "retry max duration exceeded: "@ + span_debug(max_duration->0)),
            ),
            None => plain(
                r,
                HttpErrorKind::RetryBudgetExceeded,
                "HTTP retry max duration exceeded before a retryable error was captured: "@
                    + span_debug(max_duration->0),
            ),
        },
        RetryStop::Other { reason } => plain(
            r,
            HttpErrorKind::Other,
            "HTTP retry stopped"@ + after_attempts(attempts) + ": "@ + reason@,
        ),
    }
}

/// A copy of the request and response context of `e`, without retry
/// diagnostics.
fn project_http_error(e: &HttpError, message: String) -> (r: HttpError)
    ensures
        projects(r, *e, message@),
        r.retry_diagnostics is None,
{
    HttpError {
        kind: e.kind,
        method: clone_opt_string(&e.method),
        url: clone_opt_string(&e.url),
        status: e.status,
        message,
        response_body_preview: clone_opt_string(&e.response_body_preview),
        retry_after: e.retry_after,
        retry_diagnostics: None,
        source: None,
        log_redaction: match &e.log_redaction {
            Some(l) => Some(l.duplicate()),
            None => None,
        },
    }
}

fn push_attempts(out: &mut String, attempts: u32)
    ensures
        final(out)@ == old(out)@ + after_attempts(attempts),
{
    push_str(out, " after ");
    push_decimal(out, attempts as u64);
    push_str(out, " attempt(s)");
}

/// Maps the end of a retry flow to an error: the last attempt's error where
/// the reason keeps it (with a note on the exhausted limit), else a
/// cancellation, budget or other error describing the reason; the result
/// carries the flow's diagnostics (attempts, elapsed time, termination) and,
/// as its source, the end of the retry flow with the last attempt's error.
pub fn map_retry_error(
    stop: RetryStop,
    attempts: u32,
    elapsed: TimeSpan,
    max_duration: Option<TimeSpan>,
    max_attempts: u32,
    last_error: Option<HttpError>,
    method: &str,
    url: Option<&str>,
) -> (r: HttpError)
    requires
        stop is Aborted ==> last_error is Some,
        stop is AttemptsExhausted ==> last_error is Some,
        stop is ElapsedExhausted ==> max_duration is Some,
    ensures
        retry_error_matches(
            r,
            stop,
            attempts,
            max_duration,
            max_attempts,
            last_error,
            method@,
            match url {
                Some(u) => Some(u@),
                None => None,
            },
        ),
        r.retry_diagnostics matches Some(d) && d.spec_attempts() == attempts && d.spec_elapsed()
            == elapsed && d.spec_termination() == termination_of(stop),
        r.source matches Some(b) && *b == (ErrorSource::Retry { last_error }),
{
    let termination = match &stop {
        RetryStop::Aborted => HttpRetryTermination::Aborted,
        RetryStop::AttemptsExhausted => HttpRetryTermination::AttemptsExhausted,
        RetryStop::ElapsedExhausted => HttpRetryTermination::DurationExceeded,
        RetryStop::TimedOut { .. } => HttpRetryTermination::DurationExceeded,
        RetryStop::Cancelled { .. } => HttpRetryTermination::Cancelled,
        _ => HttpRetryTermination::Aborted,
    };
    let mapped = match &stop {
        RetryStop::Cancelled { phase } => {
            let mut message = "HTTP retry cancelled during ".to_owned();
            push_str(&mut message, phase.as_str());
            let mut error = HttpError::cancelled(message.as_str()).with_method(method);
            if let Some(u) = url {
                error = error.with_url(u);
            }
            error
        },
        RetryStop::TimedOut { scope } => match &last_error {
            Some(e) => project_http_error(e, e.message.clone()),
            None => {
                let mut message = "HTTP retry ".to_owned();
                push_str(&mut message, scope.as_str());
                push_str(&mut message, " timed out");
                push_attempts(&mut message, attempts);
                HttpError::retry_budget_exceeded(message.as_str())
            },
        },
        RetryStop::CallbackFailed { callback } => {
            let mut message = "HTTP retry callback failed".to_owned();
            push_attempts(&mut message, attempts);
            push_str(&mut message, ": ");
            push_str(&mut message, callback.as_str());
            HttpError::other(message.as_str())
        },
        RetryStop::Infrastructure { failure } => {
            let mut message = "HTTP retry infrastructure failed".to_owned();
            push_attempts(&mut message, attempts);
            push_str(&mut message, ": ");
            push_str(&mut message, failure.as_str());
            HttpError::other(message.as_str())
        },
        RetryStop::Aborted => {
            let e = last_error.as_ref().unwrap();
            project_http_error(e, e.message.clone())
        },
        RetryStop::AttemptsExhausted => {
            let e = last_error.as_ref().unwrap();
            let mut message = e.message.clone();
            push_str(&mut message, " (");
            push_str(&mut message, "retry attempts exhausted: ");
            push_decimal(&mut message, attempts as u64);
            push_str(&mut message, "/");
            push_decimal(&mut message, max_attempts as u64);
            push_str(&mut message, ")");
            assert(message@ =~= with_detail(
                e.message@,
                "retry attempts exhausted: "@ + decimal_text(attempts as nat) + "/"@ + decimal_text(
                    max_attempts as nat,
                ),
            ));
            project_http_error(e, message)
        },
        RetryStop::ElapsedExhausted => {
            let d = max_duration.unwrap();
            let text = span_debug_text(d);
            match &last_error {
                Some(e) => {
                    let mut message = e.message.clone();
                    push_str(&mut message, " (");
                    push_str(&mut message, "retry max duration exceeded: ");
                    push_str(&mut message, text.as_str());
                    push_str(&mut message, ")");
                    assert(message@ =~= with_detail(
                        e.message@,
                        "retry max duration exceeded: "@ + span_debug(d),
                    ));
                    project_http_error(e, message)
                },
                None => {
                    let mut message =
                        "HTTP retry max duration exceeded before a retryable error was captured: ".to_owned();
                    push_str(&mut message, text.as_str());
                    HttpError::retry_budget_exceeded(message.as_str())
                },
            }
        },
        RetryStop::Other { reason } => {
            let mut message = "HTTP retry stopped".to_owned();
            push_attempts(&mut message, attempts);
            push_str(&mut message, ": ");
            push_str(&mut message, reason.as_str());
            HttpError::other(message.as_str())
        },
    };
    mapped.with_retry_diagnostics(HttpRetryDiagnostics::new(attempts, elapsed, termination)).with_source(
        ErrorSource::Retry { last_error },
    )
}

/// Whether an attempt error may be retried under `options`: a status error by
/// its status, any other error by its kind.
pub fn is_retryable_error(error: &HttpError, options: &HttpRetryOptions) -> (r: bool)
    ensures
        r == if error.kind == HttpErrorKind::Status {
            error.status matches Some(s) && status_retryable_under(s, opt_seq(options.retry_status_codes))
        } else {
            kind_retryable_under(error.kind, opt_seq(options.retry_error_kinds))
        },
{
    if error.kind == HttpErrorKind::Status {
        match error.status {
            Some(s) => options.is_retryable_status(s),
            None => false,
        }
    } else {
        options.is_retryable_error_kind(error.kind)
    }
}

} // verus!
