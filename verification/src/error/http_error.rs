//! The unified HTTP error value.
use vstd::prelude::*;

use super::http_error_kind::{error_kind_name, HttpErrorKind};
use super::http_retry_diagnostics::HttpRetryDiagnostics;
use super::retry_hint::RetryHint;
use crate::options::http_client_options::{no_redaction_rules, LogRedactionSettings, RedactionRules};
use crate::options::proxy_options::opt_view;
use crate::redact::log_redactor::{
    http_url_redaction, redact_http_url, redaction_rules_rejection, urls_in_text, urls_redacted,
    LogRedactor,
};
use crate::redact::redacted_debugger::url_spans_from;
use crate::text::{decimal_text, push_decimal, push_str};
use crate::time_span::TimeSpan;

verus! {

/// `429 Too Many Requests` or a `5xx` server error: the statuses that are
/// retryable by default and that honour `Retry-After`.
pub open spec fn is_retryable_status_code(status: u16) -> bool {
    status == 429 || (500 <= status && status < 600)
}

/// Executable form of [`is_retryable_status_code`].
pub fn status_is_retryable(status: u16) -> (r: bool)
    ensures
        r == is_retryable_status_code(status),
{
    status == 429 || (500 <= status && status < 600)
}

/// What caused an error.
pub enum ErrorSource {
    /// Another HTTP error.
    Http(HttpError),
    /// The end of a retry flow, with the error of its last attempt when one
    /// was kept.
    Retry { last_error: Option<HttpError> },
    /// An error from outside the library, by its display text.
    Described(String),
}

/// Unified HTTP error: its category, the request and response context known
/// when it was raised, a human-readable message, what caused it, and the log
/// redaction settings its diagnostic text is rendered with. It has no
/// `Debug` form; [`HttpError::debug_text`] renders it with URLs redacted.
pub struct HttpError {
    /// Error category.
    pub kind: HttpErrorKind,
    /// HTTP method token of the request, when known.
    pub method: Option<String>,
    /// Request URL, when known.
    pub url: Option<String>,
    /// Response status code, when known.
    pub status: Option<u16>,
    /// Human-readable message.
    pub message: String,
    /// Preview of a non-success response body.
    pub response_body_preview: Option<String>,
    /// `Retry-After` delay parsed from a non-success response.
    pub retry_after: Option<TimeSpan>,
    /// Diagnostics of the retry flow that produced this error.
    pub retry_diagnostics: Option<HttpRetryDiagnostics>,
    /// What caused this error, when known.
    pub source: Option<Box<ErrorSource>>,
    /// The log redaction settings diagnostic text is rendered with; the
    /// default settings when `None`.
    pub log_redaction: Option<LogRedactionSettings>,
}

/// The view of optional redaction settings.
pub open spec fn opt_rules(o: Option<LogRedactionSettings>) -> Option<RedactionRules> {
    match o {
        Some(s) => Some(s@),
        None => None,
    }
}

/// The retry classification of an error of `kind` with optional `status`.
pub open spec fn retry_hint_of(kind: HttpErrorKind, status: Option<u16>) -> RetryHint {
    match kind {
        HttpErrorKind::ConnectTimeout | HttpErrorKind::ReadTimeout | HttpErrorKind::WriteTimeout
        | HttpErrorKind::RequestTimeout | HttpErrorKind::Transport => RetryHint::Retryable,
        HttpErrorKind::Status => match status {
            Some(s) => if is_retryable_status_code(s) {
                RetryHint::Retryable
            } else {
                RetryHint::NonRetryable
            },
            None => RetryHint::NonRetryable,
        },
        _ => RetryHint::NonRetryable,
    }
}

impl HttpError {
    /// `self` carries `kind` and `message` and no other context.
    pub open spec fn is_bare(&self, kind: HttpErrorKind, message: Seq<char>) -> bool {
        &&& self.kind == kind
        &&& self.message@ == message
        &&& self.method is None
        &&& self.url is None
        &&& self.status is None
        &&& self.response_body_preview is None
        &&& self.retry_after is None
        &&& self.retry_diagnostics is None
        &&& self.source is None
        &&& self.log_redaction is None
    }

    /// Creates an error with kind and message; other fields are unset.
    pub fn new(kind: HttpErrorKind, message: &str) -> (r: Self)
        ensures
            r.is_bare(kind, message@),
    {
        HttpError {
            kind,
            method: None,
            url: None,
            status: None,
            message: message.to_owned(),
            response_body_preview: None,
            retry_after: None,
            retry_diagnostics: None,
            source: None,
            log_redaction: None,
        }
    }

    /// Creates an error of `kind` whose message is an owned string.
    pub fn with_message(kind: HttpErrorKind, message: String) -> (r: Self)
        ensures
            r.is_bare(kind, message@),
    {
        HttpError {
            kind,
            method: None,
            url: None,
            status: None,
            message,
            response_body_preview: None,
            retry_after: None,
            retry_diagnostics: None,
            source: None,
            log_redaction: None,
        }
    }

    /// Attaches the HTTP method for diagnostics.
    pub fn with_method(self, method: &str) -> (r: Self)
        ensures
            r.method matches Some(m) && m@ == method@,
            r.kind == self.kind && r.url == self.url && r.status == self.status,
            r.message == self.message && r.response_body_preview == self.response_body_preview,
            r.retry_after == self.retry_after && r.retry_diagnostics == self.retry_diagnostics,
            r.source == self.source && r.log_redaction == self.log_redaction,
    {
        HttpError { method: Some(method.to_owned()), ..self }
    }

    /// Attaches the request URL for diagnostics.
    pub fn with_url(self, url: &str) -> (r: Self)
        ensures
            r.url matches Some(u) && u@ == url@,
            r.kind == self.kind && r.method == self.method && r.status == self.status,
            r.message == self.message && r.response_body_preview == self.response_body_preview,
            r.retry_after == self.retry_after && r.retry_diagnostics == self.retry_diagnostics,
            r.source == self.source && r.log_redaction == self.log_redaction,
    {
        HttpError { url: Some(url.to_owned()), ..self }
    }

    /// Attaches an HTTP status code.
    pub fn with_status(self, status: u16) -> (r: Self)
        ensures
            r.status == Some(status),
            r.kind == self.kind && r.method == self.method && r.url == self.url,
            r.message == self.message && r.response_body_preview == self.response_body_preview,
            r.retry_after == self.retry_after && r.retry_diagnostics == self.retry_diagnostics,
            r.source == self.source && r.log_redaction == self.log_redaction,
    {
        HttpError { status: Some(status), ..self }
    }

    /// Attaches a preview of the non-success response body.
    pub fn with_response_body_preview(self, preview: &str) -> (r: Self)
        ensures
            r.response_body_preview matches Some(p) && p@ == preview@,
            r.kind == self.kind && r.method == self.method && r.url == self.url,
            r.status == self.status && r.message == self.message,
            r.retry_after == self.retry_after && r.retry_diagnostics == self.retry_diagnostics,
            r.source == self.source && r.log_redaction == self.log_redaction,
    {
        HttpError { response_body_preview: Some(preview.to_owned()), ..self }
    }

    /// Attaches the parsed `Retry-After` delay of a non-success response.
    pub fn with_retry_after(self, retry_after: TimeSpan) -> (r: Self)
        ensures
            r.retry_after == Some(retry_after),
            r.kind == self.kind && r.method == self.method && r.url == self.url,
            r.status == self.status && r.message == self.message,
            r.response_body_preview == self.response_body_preview,
            r.retry_diagnostics == self.retry_diagnostics,
            r.source == self.source && r.log_redaction == self.log_redaction,
    {
        HttpError { retry_after: Some(retry_after), ..self }
    }

    /// Attaches the diagnostics of the retry flow that ended with this error.
    pub fn with_retry_diagnostics(self, diagnostics: HttpRetryDiagnostics) -> (r: Self)
        ensures
            r.retry_diagnostics == Some(diagnostics),
            r.kind == self.kind && r.method == self.method && r.url == self.url,
            r.status == self.status && r.message == self.message,
            r.response_body_preview == self.response_body_preview,
            r.retry_after == self.retry_after,
            r.source == self.source && r.log_redaction == self.log_redaction,
    {
        HttpError { retry_diagnostics: Some(diagnostics), ..self }
    }

    /// Builds [`HttpErrorKind::InvalidUrl`]: URL is invalid or cannot be resolved.
    pub fn invalid_url(message: &str) -> (r: Self)
        ensures
            r.is_bare(HttpErrorKind::InvalidUrl, message@),
    {
        Self::new(HttpErrorKind::InvalidUrl, message)
    }

    /// Builds [`HttpErrorKind::BuildClient`]: HTTP client construction failed.
    pub fn build_client(message: &str) -> (r: Self)
        ensures
            r.is_bare(HttpErrorKind::BuildClient, message@),
    {
        Self::new(HttpErrorKind::BuildClient, message)
    }

    /// Builds [`HttpErrorKind::ProxyConfig`]: the proxy settings are invalid.
    pub fn proxy_config(message: &str) -> (r: Self)
        ensures
            r.is_bare(HttpErrorKind::ProxyConfig, message@),
    {
        Self::new(HttpErrorKind::ProxyConfig, message)
    }

    /// Builds [`HttpErrorKind::ConnectTimeout`]: connecting timed out.
    pub fn connect_timeout(message: &str) -> (r: Self)
        ensures
            r.is_bare(HttpErrorKind::ConnectTimeout, message@),
    {
        Self::new(HttpErrorKind::ConnectTimeout, message)
    }

    /// Builds [`HttpErrorKind::ReadTimeout`]: reading the response timed out.
    pub fn read_timeout(message: &str) -> (r: Self)
        ensures
            r.is_bare(HttpErrorKind::ReadTimeout, message@),
    {
        Self::new(HttpErrorKind::ReadTimeout, message)
    }

    /// Builds [`HttpErrorKind::WriteTimeout`]: sending the request timed out.
    pub fn write_timeout(message: &str) -> (r: Self)
        ensures
            r.is_bare(HttpErrorKind::WriteTimeout, message@),
    {
        Self::new(HttpErrorKind::WriteTimeout, message)
    }

    /// Builds [`HttpErrorKind::RequestTimeout`]: the whole-request deadline passed.
    pub fn request_timeout(message: &str) -> (r: Self)
        ensures
            r.is_bare(HttpErrorKind::RequestTimeout, message@),
    {
        Self::new(HttpErrorKind::RequestTimeout, message)
    }

    /// Builds [`HttpErrorKind::Transport`]: a low-level I/O or network failure.
    pub fn transport(message: &str) -> (r: Self)
        ensures
            r.is_bare(HttpErrorKind::Transport, message@),
    {
        Self::new(HttpErrorKind::Transport, message)
    }

    /// Builds [`HttpErrorKind::Decode`]: decoding the body or payload failed.
    pub fn decode(message: &str) -> (r: Self)
        ensures
            r.is_bare(HttpErrorKind::Decode, message@),
    {
        Self::new(HttpErrorKind::Decode, message)
    }

    /// Builds [`HttpErrorKind::SseProtocol`]: SSE framing, UTF-8 or line rules were violated.
    pub fn sse_protocol(message: &str) -> (r: Self)
        ensures
            r.is_bare(HttpErrorKind::SseProtocol, message@),
    {
        Self::new(HttpErrorKind::SseProtocol, message)
    }

    /// Builds [`HttpErrorKind::SseDecode`]: decoding an SSE payload failed.
    pub fn sse_decode(message: &str) -> (r: Self)
        ensures
            r.is_bare(HttpErrorKind::SseDecode, message@),
    {
        Self::new(HttpErrorKind::SseDecode, message)
    }

    /// Builds [`HttpErrorKind::Cancelled`]: the operation was cancelled.
    pub fn cancelled(message: &str) -> (r: Self)
        ensures
            r.is_bare(HttpErrorKind::Cancelled, message@),
    {
        Self::new(HttpErrorKind::Cancelled, message)
    }

    /// Builds [`HttpErrorKind::RetryBudgetExceeded`]: the retry budget ran out before an application error was captured.
    pub fn retry_budget_exceeded(message: &str) -> (r: Self)
        ensures
            r.is_bare(HttpErrorKind::RetryBudgetExceeded, message@),
    {
        Self::new(HttpErrorKind::RetryBudgetExceeded, message)
    }

    /// Builds [`HttpErrorKind::Other`]: any other failure.
    pub fn other(message: &str) -> (r: Self)
        ensures
            r.is_bare(HttpErrorKind::Other, message@),
    {
        Self::new(HttpErrorKind::Other, message)
    }

    /// Builds [`HttpErrorKind::Status`] with the given status pre-filled.
    pub fn status(status: u16, message: &str) -> (r: Self)
        ensures
            r.kind == HttpErrorKind::Status,
            r.status == Some(status),
            r.message@ == message@,
            r.method is None && r.url is None && r.response_body_preview is None,
            r.retry_after is None && r.retry_diagnostics is None,
            r.source is None && r.log_redaction is None,
    {
        Self::new(HttpErrorKind::Status, message).with_status(status)
    }

    /// Classifies this error for retry policies: timeouts and transport
    /// failures are retryable, as are status errors with `429` or `5xx`.
    pub fn retry_hint(&self) -> (r: RetryHint)
        ensures
            r == retry_hint_of(self.kind, self.status),
    {
        match self.kind {
            HttpErrorKind::ConnectTimeout | HttpErrorKind::ReadTimeout
            | HttpErrorKind::WriteTimeout | HttpErrorKind::RequestTimeout
            | HttpErrorKind::Transport => RetryHint::Retryable,
            HttpErrorKind::Status => {
                match self.status {
                    Some(status) => {
                        if status_is_retryable(status) {
                            RetryHint::Retryable
                        } else {
                            RetryHint::NonRetryable
                        }
                    },
                    None => RetryHint::NonRetryable,
                }
            },
            _ => RetryHint::NonRetryable,
        }
    }

    /// Attaches what caused this error.
    pub fn with_source(self, source: ErrorSource) -> (r: Self)
        ensures
            r.source matches Some(b) && *b == source,
            r.kind == self.kind && r.method == self.method && r.url == self.url,
            r.status == self.status && r.message == self.message,
            r.response_body_preview == self.response_body_preview,
            r.retry_after == self.retry_after && r.retry_diagnostics == self.retry_diagnostics,
            r.log_redaction == self.log_redaction,
    {
        HttpError { source: Some(Box::new(source)), ..self }
    }

    /// Attaches the log redaction settings its diagnostic text is rendered
    /// with.
    pub fn with_log_redaction(self, settings: LogRedactionSettings) -> (r: Self)
        ensures
            r.log_redaction == Some(settings),
            r.kind == self.kind && r.method == self.method && r.url == self.url,
            r.status == self.status && r.message == self.message,
            r.response_body_preview == self.response_body_preview,
            r.retry_after == self.retry_after && r.retry_diagnostics == self.retry_diagnostics,
            r.source == self.source,
    {
        HttpError { log_redaction: Some(settings), ..self }
    }
}

/// A copy of an optional string.
pub fn clone_opt_string(s: &Option<String>) -> (r: Option<String>)
    ensures
        r == *s,
{
    match s {
        Some(v) => Some(v.clone()),
        None => None,
    }
}

/// Exactly the timeout and transport kinds, and status errors whose status
/// is `429` or `5xx`, are classified retryable.
pub proof fn law_retry_hint_classification(kind: HttpErrorKind, status: Option<u16>)
    ensures
        retry_hint_of(kind, status) == RetryHint::Retryable <==> (kind
            == HttpErrorKind::ConnectTimeout || kind == HttpErrorKind::ReadTimeout || kind
            == HttpErrorKind::WriteTimeout || kind == HttpErrorKind::RequestTimeout || kind
            == HttpErrorKind::Transport || (kind == HttpErrorKind::Status && status is Some && (
            status->0 == 429 || (500 <= status->0 && status->0 <= 599)))),
{
}

/// The statuses retryable by default are exactly `429` and `500` through
/// `599`; a status error carrying one of them is classified retryable, and
/// a status error carrying any other status is not.
pub proof fn law_default_retryable_statuses(status: u16)
    ensures
        is_retryable_status_code(status) <==> (status == 429 || (500 <= status && status <= 599)),
        retry_hint_of(HttpErrorKind::Status, Some(status)) == if status == 429 || (500 <= status
            && status <= 599) {
            RetryHint::Retryable
        } else {
            RetryHint::NonRetryable
        },
{
}

/// The rules an error's diagnostic text is rendered with.
pub open spec fn debug_rules(e: HttpError) -> RedactionRules {
    match e.log_redaction {
        Some(s) => s@,
        None => no_redaction_rules(),
    }
}

/// `Some("text")` or `None`.
pub open spec fn opt_text(o: Option<Seq<char>>) -> Seq<char> {
    match o {
        Some(t) => "Some(\""@ + t + "\")"@,
        None => "None"@,
    }
}

/// `Some(code)` or `None`.
pub open spec fn opt_status_text(o: Option<u16>) -> Seq<char> {
    match o {
        Some(c) => "Some("@ + decimal_text(c as nat) + ")"@,
        None => "None"@,
    }
}

/// The diagnostic text of an error: its kind, method, URL, status and
/// message, with the URL and every URL in the message redacted under the
/// error's redaction settings; only the kind when no redactor can be built
/// from those settings.
pub open spec fn error_debug_text(e: HttpError) -> Seq<char> {
    let rules = debug_rules(e);
    if redaction_rules_rejection(rules) is Some {
        "HttpError { kind: "@ + error_kind_name(e.kind) + ", <redaction unavailable> }"@
    } else {
        "HttpError { kind: "@ + error_kind_name(e.kind) + ", method: "@ + opt_text(opt_view(e.method))
            + ", url: "@ + opt_text(
            match e.url {
                Some(u) => Some(http_url_redaction(rules, u@)),
                None => None,
            },
        ) + ", status: "@ + opt_status_text(e.status) + ", message: \""@ + urls_redacted(
            e.message@,
            url_spans_from(e.message@, 0),
            0,
            rules,
        ) + "\" }"@
    }
}

fn push_opt_text(out: &mut String, o: Option<&str>)
    ensures
        final(out)@ == old(out)@ + opt_text(
            match o {
                Some(t) => Some(t@),
                None => None,
            },
        ),
{
    match o {
        Some(t) => {
            push_str(out, "Some(\"");
            push_str(out, t);
            push_str(out, "\")");
        },
        None => push_str(out, "None"),
    }
}

impl HttpError {
    /// The diagnostic text of this error (see [`error_debug_text`]); it is
    /// what the error shows in place of a `Debug` form.
    pub fn debug_text(&self) -> (r: String)
        ensures
            r@ == error_debug_text(*self),
    {
        let settings = match &self.log_redaction {
            Some(s) => s.duplicate(),
            None => LogRedactionSettings::new(),
        };
        let mut out = "HttpError { kind: ".to_owned();
        push_str(&mut out, self.kind.as_str());
        match LogRedactor::new(&settings) {
            Err(_) => {
                push_str(&mut out, ", <redaction unavailable> }");
                out
            },
            Ok(redactor) => {
                push_str(&mut out, ", method: ");
                match &self.method {
                    Some(m) => push_opt_text(&mut out, Some(m.as_str())),
                    None => push_opt_text(&mut out, None),
                }
                push_str(&mut out, ", url: ");
                match &self.url {
                    Some(u) => {
                        let red = redact_http_url(&redactor, u.as_str());
                        push_opt_text(&mut out, Some(red.as_str()));
                    },
                    None => push_opt_text(&mut out, None),
                }
                push_str(&mut out, ", status: ");
                match self.status {
                    Some(c) => {
                        push_str(&mut out, "Some(");
                        push_decimal(&mut out, c as u64);
                        push_str(&mut out, ")");
                    },
                    None => push_str(&mut out, "None"),
                }
                push_str(&mut out, ", message: \"");
                let msg = urls_in_text(self.message.as_str(), &redactor);
                push_str(&mut out, msg.as_str());
                push_str(&mut out, "\" }");
                out
            },
        }
    }
}

/// The display text of an error: its message with every URL in it redacted
/// under the error's redaction settings, or `<redaction unavailable>` when
/// no redactor can be built from them.
pub open spec fn error_display_text(e: HttpError) -> Seq<char> {
    let rules = debug_rules(e);
    if redaction_rules_rejection(rules) is Some {
        "<redaction unavailable>"@
    } else {
        urls_redacted(e.message@, url_spans_from(e.message@, 0), 0, rules)
    }
}

impl HttpError {
    /// The display text of this error (see [`error_display_text`]).
    pub fn to_text(&self) -> (r: String)
        ensures
            r@ == error_display_text(*self),
    {
        let settings = match &self.log_redaction {
            Some(s) => s.duplicate(),
            None => LogRedactionSettings::new(),
        };
        match LogRedactor::new(&settings) {
            Err(_) => "<redaction unavailable>".to_owned(),
            Ok(redactor) => urls_in_text(self.message.as_str(), &redactor),
        }
    }
}

} // verus!
