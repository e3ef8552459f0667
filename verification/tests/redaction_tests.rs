use qubit_http::client::http_logger::{
    request_trace_lines, response_trace_lines, stream_trace_lines, RequestBodyForLog, ResponseBodyForLog,
};
use qubit_http::error::http_error::HttpError;
use qubit_http::options::http_client_options::LogRedactionSettings;
use qubit_http::options::logging_options::HttpLoggingOptions;
use qubit_http::options::http_retry_options::{HttpRetryOptions, RetryDelayPlan};
use qubit_http::redact::log_redactor::{redact_http_url, redact_log_batch, urls_in_text, LogRedactionItem, LogRedactor};
use qubit_http::time_span::TimeSpan;

fn options() -> HttpLoggingOptions {
    HttpLoggingOptions {
        enabled: true,
        log_request_header: true,
        log_request_body: true,
        log_response_header: true,
        log_response_body: true,
        body_size_limit: 64,
    }
}

fn redactor() -> LogRedactor {
    let mut s = LogRedactionSettings::new();
    s.sensitive_query_params.push("token".to_string());
    s.sensitive_headers.push("x-api-key".to_string());
    match LogRedactor::new(&s) {
        Ok(r) => r,
        Err(m) => panic!("redactor: {m}"),
    }
}

fn headers() -> Vec<(String, Vec<u8>)> {
    vec![
        ("x-api-key".to_string(), b"key-secret".to_vec()),
        ("accept".to_string(), b"text/plain".to_vec()),
    ]
}

#[test]
fn redacted_url_hides_sensitive_query() {
    let r = redactor();
    let text = redact_http_url(&r, "https://example.test/?token=url-secret");
    assert!(!text.contains("url-secret"), "{text}");
    let line = urls_in_text("failed for https://example.test/?token=url-secret, and ftp://x", &r);
    assert!(line.starts_with("failed for "), "{line}");
    assert!(!line.contains("url-secret"), "{line}");
    assert!(line.ends_with(", and ftp://x"), "{line}");
    let bad = urls_in_text("see http://[bad", &r);
    assert_eq!(bad, "see <redacted: invalid URL>");
}

#[test]
fn request_trace_lines_are_redacted() {
    let r = redactor();
    let lines = request_trace_lines(
        "POST",
        Some("https://example.test/?token=url-secret"),
        &headers(),
        Some("application/json"),
        &RequestBodyForLog::Bytes(br#"{"ok":true}"#.to_vec()),
        &options(),
        &r,
    );
    assert_eq!(lines.len(), 3);
    assert!(lines[0].starts_with("--> POST "), "{}", lines[0]);
    assert!(lines[2].starts_with("Request body: "), "{}", lines[2]);
    for line in &lines {
        assert!(!line.contains("url-secret") && !line.contains("key-secret"), "{line}");
    }
    let lines = request_trace_lines("GET", None, &[], None, &RequestBodyForLog::Empty, &options(), &r);
    assert_eq!(lines, vec!["--> GET <unresolved request URL>", "", "Request body: <empty>"]);
    let mut o = options();
    o.log_request_header = false;
    let lines = request_trace_lines("GET", None, &[], None, &RequestBodyForLog::Streaming, &o, &r);
    assert_eq!(lines, vec!["--> GET <unresolved request URL>", "Request body: <skipped: streaming request body>"]);
    o.enabled = false;
    assert!(request_trace_lines("GET", None, &[], None, &RequestBodyForLog::Empty, &o, &r).is_empty());
}

#[test]
fn response_trace_lines_follow_the_body() {
    let r = redactor();
    let mut o = options();
    o.log_response_header = false;
    let lines = response_trace_lines(200, "https://example.test/", &headers(), None, &ResponseBodyForLog::Buffered(vec![]), &o, &r);
    assert_eq!(lines.len(), 2);
    assert!(lines[0].starts_with("<-- 200 "), "{}", lines[0]);
    assert_eq!(lines[1], "Response body: <empty>");
    let lines = response_trace_lines(200, "https://example.test/", &headers(), None, &ResponseBodyForLog::Unbuffered, &o, &r);
    assert_eq!(lines[1], "Response body: <skipped: streaming or unknown-size body>");
    let lines = stream_trace_lines(201, "https://example.test/?token=url-secret", &headers(), &options(), &r);
    assert_eq!(lines.len(), 2);
    assert!(lines[0].starts_with("<-- 201 ") && lines[0].ends_with(" (stream)"), "{}", lines[0]);
    assert!(!lines[0].contains("url-secret") && !lines[1].contains("key-secret"));
}

#[test]
fn error_texts_redact_urls() {
    let mut s = LogRedactionSettings::new();
    s.sensitive_query_params.push("token".to_string());
    let e = HttpError::transport("failed: https://example.test/?token=msg-secret")
        .with_url("https://example.test/?token=url-secret")
        .with_log_redaction(s);
    let d = e.debug_text();
    assert!(d.starts_with("HttpError { kind: transport"), "{d}");
    assert!(!d.contains("msg-secret") && !d.contains("url-secret"), "{d}");
    let t = e.to_text();
    assert!(t.starts_with("failed: ") && !t.contains("msg-secret"), "{t}");
}

#[test]
fn retry_delay_plans_are_validated() {
    let mut o = HttpRetryOptions::new();
    assert!(o.validate().is_ok());
    o.delay_strategy = RetryDelayPlan::Random { min: TimeSpan::from_secs(2), max: TimeSpan::from_secs(1) };
    let e = o.validate().unwrap_err();
    assert_eq!(e.path, "delay_strategy");
    assert_eq!(e.message, "Retry random delay minimum must not exceed its maximum");
    o.delay_strategy = RetryDelayPlan::Exponential { initial: TimeSpan::from_secs(2), max: TimeSpan::from_secs(1) };
    assert_eq!(o.validate().unwrap_err().message, "Retry exponential initial delay must not exceed its maximum");
    o.max_attempts = 0;
    assert_eq!(o.validate().unwrap_err().path, "max_attempts");
}

#[test]
fn response_body_line_reports_spent_redaction_budget() {
    let r = redactor();
    let big: Vec<(String, Vec<u8>)> = (0..160).map(|i| (format!("x-h{i}"), vec![b'a'; 100])).collect();
    let lines = response_trace_lines(
        200,
        "https://example.test/",
        &big,
        None,
        &ResponseBodyForLog::Buffered(vec![]),
        &options(),
        &r,
    );
    assert_eq!(lines.len(), 3);
    assert_eq!(lines[2], "Response body: <redaction incomplete>");
    let (_, exhausted) = redact_log_batch(
        &r,
        &[LogRedactionItem::Url("https://example.test/".to_string()), LogRedactionItem::Headers(big.clone())],
        "<redaction incomplete>",
    );
    assert_eq!(exhausted, vec![false, true]);
    let lines = response_trace_lines(
        200,
        "https://example.test/",
        &big,
        None,
        &ResponseBodyForLog::Unbuffered,
        &options(),
        &r,
    );
    assert_eq!(lines[2], "Response body: <redaction incomplete>");
}

#[test]
fn item_failure_without_spent_budget_keeps_body_line() {
    let r = redactor();
    let huge: Vec<(String, Vec<u8>)> = (0..400).map(|i| (format!("x-h{i}"), vec![b'a'; 100])).collect();
    let lines = response_trace_lines(
        200,
        "https://example.test/",
        &huge,
        None,
        &ResponseBodyForLog::Buffered(vec![]),
        &options(),
        &r,
    );
    assert_eq!(lines[1], "<redaction incomplete>");
    assert_eq!(lines[2], "Response body: <empty>");
}
