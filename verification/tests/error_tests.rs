use qubit_http::error::body_preview::{render_body, render_error_body_preview};
use qubit_http::error::http_error::HttpError;
use qubit_http::error::http_error_kind::HttpErrorKind;
use qubit_http::error::http_retry_diagnostics::HttpRetryDiagnostics;
use qubit_http::error::http_retry_termination::HttpRetryTermination;
use qubit_http::error::retry_after::{
    delay_until, parse_retry_after, parse_retry_after_value, parse_retry_after_value_at,
};
use qubit_http::error::retry_hint::RetryHint;
use qubit_http::time_span::TimeSpan;

#[test]
fn diagnostics_accessors_return_snapshot_values() {
    let diagnostics = HttpRetryDiagnostics::new(3, TimeSpan::from_secs(2), HttpRetryTermination::Aborted);
    assert_eq!(diagnostics.attempts(), 3);
    assert_eq!(diagnostics.elapsed(), TimeSpan::from_secs(2));
    assert_eq!(diagnostics.termination(), HttpRetryTermination::Aborted);
}

#[test]
fn error_kind_names_round_trip() {
    let kinds = [
        HttpErrorKind::InvalidUrl,
        HttpErrorKind::BuildClient,
        HttpErrorKind::ProxyConfig,
        HttpErrorKind::ConnectTimeout,
        HttpErrorKind::ReadTimeout,
        HttpErrorKind::WriteTimeout,
        HttpErrorKind::SendTimeout,
        HttpErrorKind::RequestTimeout,
        HttpErrorKind::Transport,
        HttpErrorKind::Status,
        HttpErrorKind::Decode,
        HttpErrorKind::SseProtocol,
        HttpErrorKind::SseDecode,
        HttpErrorKind::Cancelled,
        HttpErrorKind::RetryBudgetExceeded,
        HttpErrorKind::ResponseBodyTooLarge,
        HttpErrorKind::ResponseBodyAlreadyConsumed,
        HttpErrorKind::OriginPolicy,
        HttpErrorKind::Other,
    ];
    for kind in kinds {
        assert_eq!(HttpErrorKind::parse(kind.as_str()), Some(kind));
    }
    assert_eq!(HttpErrorKind::ReadTimeout.as_str(), "read_timeout");
    assert_eq!(HttpErrorKind::parse("Read_Timeout"), None);
}

#[test]
fn retry_hint_follows_kind_and_status() {
    assert_eq!(HttpError::transport("down").retry_hint(), RetryHint::Retryable);
    assert_eq!(HttpError::read_timeout("slow").retry_hint(), RetryHint::Retryable);
    assert_eq!(HttpError::status(503, "unavailable").retry_hint(), RetryHint::Retryable);
    assert_eq!(HttpError::status(429, "busy").retry_hint(), RetryHint::Retryable);
    assert_eq!(HttpError::status(404, "missing").retry_hint(), RetryHint::NonRetryable);
    assert_eq!(HttpError::decode("bad json").retry_hint(), RetryHint::NonRetryable);
    assert_eq!(HttpError::cancelled("stop").retry_hint(), RetryHint::NonRetryable);
}

#[test]
fn error_builders_attach_context() {
    let error = HttpError::other("boom")
        .with_method("GET")
        .with_url("https://example.com/a")
        .with_status(500)
        .with_response_body_preview("oops")
        .with_retry_after(TimeSpan::from_secs(3));
    assert_eq!(error.kind, HttpErrorKind::Other);
    assert_eq!(error.method.as_deref(), Some("GET"));
    assert_eq!(error.url.as_deref(), Some("https://example.com/a"));
    assert_eq!(error.status, Some(500));
    assert_eq!(error.response_body_preview.as_deref(), Some("oops"));
    assert_eq!(error.retry_after, Some(TimeSpan::from_secs(3)));
    assert_eq!(error.to_text(), "boom");
}

#[test]
fn error_body_preview_renders_text_binary_and_truncation() {
    assert_eq!(render_error_body_preview(b"", false), "<empty>");
    assert_eq!(render_error_body_preview(b"hello", false), "hello");
    assert_eq!(render_error_body_preview(b"hello", true), "hello...<truncated>");
    assert_eq!(render_error_body_preview(&[0xff, 0xfe], false), "<binary 2 bytes>");
}

#[test]
fn log_body_preview_cuts_at_limit() {
    assert_eq!(render_body(b"", 4), "<empty>");
    assert_eq!(render_body(b"abcdef", 4), "abcd...<truncated 2 bytes>");
    assert_eq!(render_body(b"abc", 4), "abc");
    assert_eq!(render_body(&[0xff, 0x41, 0x42], 10), "<binary 3 bytes>");
}

#[test]
fn retry_after_reads_seconds_and_dates() {
    assert_eq!(parse_retry_after_value(" 120 "), Some(TimeSpan::from_secs(120)));
    assert_eq!(parse_retry_after_value(""), None);
    assert_eq!(parse_retry_after_value("soon"), None);
    assert_eq!(parse_retry_after(503, Some("7")), Some(TimeSpan::from_secs(7)));
    assert_eq!(parse_retry_after(429, Some("0")), Some(TimeSpan::from_secs(0)));
    assert_eq!(parse_retry_after(404, Some("7")), None);
    assert_eq!(parse_retry_after(503, None), None);
    // A date long past gives no wait.
    assert_eq!(
        parse_retry_after_value("Sun, 06 Nov 1994 08:49:37 GMT"),
        Some(TimeSpan::from_secs(0))
    );
}

#[test]
fn retry_after_dates_count_from_the_given_clock() {
    let now = TimeSpan::from_secs(784_111_770);
    assert_eq!(
        parse_retry_after_value_at("Sun, 06 Nov 1994 08:49:37 GMT", now),
        Some(TimeSpan::from_secs(7))
    );
    assert_eq!(parse_retry_after_value_at(" 12 ", now), Some(TimeSpan::from_secs(12)));
    assert_eq!(parse_retry_after_value_at("soon", now), None);
    assert_eq!(delay_until(10, TimeSpan::from_secs(11)), TimeSpan::zero());
    assert_eq!(delay_until(10, TimeSpan::from_millis(9_500)), TimeSpan::from_millis(500));
}
