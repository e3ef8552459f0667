//! Pieces of a retry flow decided per attempt: whether a failure is
//! retried, how long a server's `Retry-After` still asks to wait beyond the
//! planned delay, and how a finished flow is reported.
use vstd::prelude::*;

use super::retry_errors::{is_retryable_error, projects, span_debug, span_debug_text, with_detail};
use crate::error::http_error::HttpError;
use crate::error::http_error_kind::HttpErrorKind;
use crate::options::http_retry_options::{kind_retryable_under, opt_seq, status_retryable_under, HttpRetryOptions};
use crate::text::{decimal_text, push_decimal, push_str};
use crate::time_span::TimeSpan;

verus! {

/// What a retry flow does after a failed attempt.
#[derive(Debug, Clone, Copy, PartialEq, Eq, Structural)]
pub enum RetryDecision {
    /// Schedule another attempt.
    Retry,
    /// Stop and report the failure.
    Abort,
}

/// Whether an attempt error is retried under `options`: a status error by
/// its status, any other error by its kind.
pub open spec fn error_retryable(error: HttpError, options: HttpRetryOptions) -> bool {
    if error.kind == HttpErrorKind::Status {
        error.status matches Some(s) && status_retryable_under(s, opt_seq(options.retry_status_codes))
    } else {
        kind_retryable_under(error.kind, opt_seq(options.retry_error_kinds))
    }
}

/// Under options that configure no status set, a status error is retried
/// exactly when its status is `429` or lies in `500` through `599`.
pub proof fn law_default_status_errors_retried(error: HttpError, options: HttpRetryOptions)
    requires
        error.kind == HttpErrorKind::Status,
        error.status is Some,
        options.retry_status_codes is None,
    ensures
        error_retryable(error, options) <==> (error.status->0 == 429 || (500 <= error.status->0
            && error.status->0 <= 599)),
{
}

/// Classifies an attempt error for the retry flow.
pub fn classify_error(error: &HttpError, options: &HttpRetryOptions) -> (r: RetryDecision)
    ensures
        r == if error_retryable(*error, *options) {
            RetryDecision::Retry
        } else {
            RetryDecision::Abort
        },
{
    if is_retryable_error(error, options) {
        RetryDecision::Retry
    } else {
        RetryDecision::Abort
    }
}

/// The extra wait a server's `Retry-After` asks for beyond the planned
/// delay before the next attempt: the difference when it is longer, else
/// none.
pub fn retry_after_extra_delay(retry_after: Option<TimeSpan>, next_delay: TimeSpan) -> (r: Option<
    TimeSpan,
>)
    ensures
        match r {
            Some(d) => d@ == extra_wait(retry_after, next_delay) && d@ > 0,
            None => extra_wait(retry_after, next_delay) == 0,
        },
{
    match retry_after {
        Some(ra) => {
            if next_delay.lt(&ra) {
                Some(ra.saturating_sub(&next_delay))
            } else {
                None
            }
        },
        None => None,
    }
}

/// The extra wait, in nanoseconds, that a server's `Retry-After` asks for
/// beyond the planned delay.
pub open spec fn extra_wait(retry_after: Option<TimeSpan>, next_delay: TimeSpan) -> nat {
    match retry_after {
        Some(ra) => if ra@ > next_delay@ {
            (ra@ - next_delay@) as nat
        } else {
            0
        },
        None => 0,
    }
}

/// Honoring `Retry-After` waits exactly the longer of the planned delay and
/// the server's delay, never less than planned.
pub proof fn law_retry_after_wait_is_longer_delay(retry_after: TimeSpan, next_delay: TimeSpan)
    ensures
        next_delay@ + extra_wait(Some(retry_after), next_delay) == if retry_after@ > next_delay@ {
            retry_after@
        } else {
            next_delay@
        },
        extra_wait(None, next_delay) == 0,
{
}

/// Stores a pending extra delay for the next attempt.
pub fn set_pending_retry_after_delay(slot: &mut Option<TimeSpan>, delay: TimeSpan)
    ensures
        *final(slot) == Some(delay),
{
    *slot = Some(delay);
}

/// Takes the pending extra delay, leaving none.
pub fn take_pending_retry_after_delay(slot: &mut Option<TimeSpan>) -> (r: Option<TimeSpan>)
    ensures
        r == *old(slot),
        *final(slot) is None,
{
    let r = *slot;
    *slot = None;
    r
}

/// A failed attempt as the retry flow sees it.
pub enum AttemptFailure {
    /// The attempt returned an error.
    Error(HttpError),
    /// The attempt ran past its timeout.
    AttemptTimeout { elapsed: TimeSpan, timeout: TimeSpan },
}

/// How a retry flow without success ended.
pub enum RetryExit {
    /// The classification stopped the flow after a failure.
    Aborted(AttemptFailure),
    /// The attempt limit was reached.
    AttemptsExceeded { attempts: u32, max_attempts: u32, last_failure: AttemptFailure },
    /// The elapsed-time limit was reached, possibly before any failure.
    MaxElapsedExceeded { elapsed: TimeSpan, max_elapsed: TimeSpan, last_captured: Option<AttemptFailure> },
}

/// The error a failed attempt is reported as: its own error, or an `other`
/// error describing the attempt timeout.
pub open spec fn failure_error_matches(r: HttpError, f: AttemptFailure) -> bool {
    match f {
        AttemptFailure::Error(e) => r == e,
        AttemptFailure::AttemptTimeout { elapsed, timeout } => r.is_bare(
            HttpErrorKind::Other,
            "HTTP retry attempt timeout after "@ + span_debug(elapsed) + " (timeout: "@ + span_debug(
                timeout,
            ) + ")"@,
        ),
    }
}

/// The error a failed attempt is reported as, with `message` in place of
/// its own message.
pub open spec fn failure_error_with_message(r: HttpError, f: AttemptFailure, message: spec_fn(Seq<char>) -> Seq<char>) -> bool {
    match f {
        AttemptFailure::Error(e) => projects(r, e, message(e.message@)) && r.retry_diagnostics
            == e.retry_diagnostics,
        AttemptFailure::AttemptTimeout { elapsed, timeout } => r.is_bare(
            HttpErrorKind::Other,
            message(
                "HTTP retry attempt timeout after "@ + span_debug(elapsed) + " (timeout: "@
                    + span_debug(timeout) + ")"@,
            ),
        ),
    }
}

/// Reports a failed attempt as an error (see [`failure_error_matches`]).
pub fn map_retry_failure_to_error(failure: AttemptFailure) -> (r: HttpError)
    ensures
        failure_error_matches(r, failure),
{
    match failure {
        AttemptFailure::Error(e) => e,
        AttemptFailure::AttemptTimeout { elapsed, timeout } => {
            let mut message = "HTTP retry attempt timeout after ".to_owned();
            push_str(&mut message, span_debug_text(elapsed).as_str());
            push_str(&mut message, " (timeout: ");
            push_str(&mut message, span_debug_text(timeout).as_str());
            push_str(&mut message, ")");
            HttpError::with_message(HttpErrorKind::Other, message)
        },
    }
}

/// `elapsed/max` in `Debug` form.
pub open spec fn elapsed_of_max(elapsed: TimeSpan, max: TimeSpan) -> Seq<char> {
    span_debug(elapsed) + "/"@ + span_debug(max)
}

/// Reports a retry flow that ended without success: the last failure's
/// error, with a note on the exhausted limit where one was reached, or an
/// `other` error when the time limit passed before any failure.
pub fn map_retry_exit(exit: RetryExit) -> (r: HttpError)
    ensures
        match exit {
            RetryExit::Aborted(f) => failure_error_matches(r, f),
            RetryExit::AttemptsExceeded { attempts, max_attempts, last_failure } => failure_error_with_message(
                r,
                last_failure,
                |m: Seq<char>|
                    with_detail(
                        m,
                        "retry attempts exhausted: "@ + decimal_text(attempts as nat) + "/"@
                            + decimal_text(max_attempts as nat),
                    ),
            ),
            RetryExit::MaxElapsedExceeded { elapsed, max_elapsed, last_captured } => match last_captured {
                Some(f) => failure_error_with_message(
                    r,
                    f,
                    |m: Seq<char>|
                        with_detail(
                            m,
                            "retry max duration exceeded: "@ + elapsed_of_max(elapsed, max_elapsed),
                        ),
                ),
                None => r.is_bare(
                    HttpErrorKind::Other,
                    "HTTP retry max duration exceeded before a retryable error was captured: "@
                        + elapsed_of_max(elapsed, max_elapsed),
                ),
            },
        },
{
    match exit {
        RetryExit::Aborted(f) => map_retry_failure_to_error(f),
        RetryExit::AttemptsExceeded { attempts, max_attempts, last_failure } => {
            let e = map_retry_failure_to_error(last_failure);
            let HttpError { kind, method, url, status, message: old_message, response_body_preview, retry_after, retry_diagnostics, source, log_redaction } = e;
            let mut message = old_message.clone();
            push_str(&mut message, " (");
            push_str(&mut message, "retry attempts exhausted: ");
            push_decimal(&mut message, attempts as u64);
            push_str(&mut message, "/");
            push_decimal(&mut message, max_attempts as u64);
            push_str(&mut message, ")");
            assert(message@ =~= with_detail(
                old_message@,
                "retry attempts exhausted: "@ + decimal_text(attempts as nat) + "/"@ + decimal_text(
                    max_attempts as nat,
                ),
            ));
            HttpError { kind, method, url, status, message, response_body_preview, retry_after, retry_diagnostics, source, log_redaction }
        },
        RetryExit::MaxElapsedExceeded { elapsed, max_elapsed, last_captured } => {
            let mut detail = span_debug_text(elapsed);
            push_str(&mut detail, "/");
            push_str(&mut detail, span_debug_text(max_elapsed).as_str());
            match last_captured {
                Some(f) => {
                    let e = map_retry_failure_to_error(f);
                    let HttpError { kind, method, url, status, message: old_message, response_body_preview, retry_after, retry_diagnostics, source, log_redaction } = e;
                    let mut message = old_message.clone();
                    push_str(&mut message, " (");
                    push_str(&mut message, "retry max duration exceeded: ");
                    push_str(&mut message, detail.as_str());
                    push_str(&mut message, ")");
                    assert(message@ =~= with_detail(
                        old_message@,
                        "retry max duration exceeded: "@ + elapsed_of_max(elapsed, max_elapsed),
                    ));
                    HttpError { kind, method, url, status, message, response_body_preview, retry_after, retry_diagnostics, source, log_redaction }
                },
                None => {
                    let mut message =
                        "HTTP retry max duration exceeded before a retryable error was captured: ".to_owned();
                    push_str(&mut message, detail.as_str());
                    HttpError::with_message(HttpErrorKind::Other, message)
                },
            }
        },
    }
}

/// What the retry rule tells the flow after an attempt.
#[derive(Debug, Clone, Copy, PartialEq, Eq, Structural)]
pub enum RuleDecision {
    /// Leave the decision to the flow's defaults.
    UseDefault,
    /// Stop.
    Abort,
    /// Retry after at least the given delay.
    RetryWithHint(TimeSpan),
    /// Retry after the planned delay.
    Retry,
}

/// The retry rule: failures that are not errors (attempt timeouts) follow
/// the defaults; non-retryable errors stop the flow; retryable ones retry,
/// after the server's `Retry-After` delay when it is honored and present.
pub fn decide(failure: &AttemptFailure, options: &HttpRetryOptions, honor_retry_after: bool) -> (r:
    RuleDecision)
    ensures
        match failure {
            AttemptFailure::AttemptTimeout { .. } => r == RuleDecision::UseDefault,
            AttemptFailure::Error(e) => r == if !error_retryable(*e, *options) {
                RuleDecision::Abort
            } else if honor_retry_after && e.retry_after is Some {
                RuleDecision::RetryWithHint(e.retry_after->0)
            } else {
                RuleDecision::Retry
            },
        },
{
    match failure {
        AttemptFailure::AttemptTimeout { .. } => RuleDecision::UseDefault,
        AttemptFailure::Error(e) => {
            match classify_error(e, options) {
                RetryDecision::Abort => RuleDecision::Abort,
                RetryDecision::Retry => {
                    if honor_retry_after {
                        if let Some(delay) = e.retry_after {
                            return RuleDecision::RetryWithHint(delay);
                        }
                    }
                    RuleDecision::Retry
                },
            }
        },
    }
}

} // verus!
