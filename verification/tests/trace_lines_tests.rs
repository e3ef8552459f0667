use qubit_http::logging::policy::{log_request, log_response, log_stream_response_headers};
use qubit_http::options::logging_options::HttpLoggingOptions;
use qubit_http::options::http_client_options::LogRedactionSettings;
use qubit_http::redact::log_redactor::LogRedactor;
use qubit_http::SensitiveHeaders;

fn redactor() -> LogRedactor {
    match LogRedactor::new(&LogRedactionSettings::new()) {
        Ok(r) => r,
        Err(m) => panic!("redactor: {m}"),
    }
}

fn options() -> HttpLoggingOptions {
    HttpLoggingOptions {
        enabled: true,
        log_request_header: true,
        log_request_body: true,
        log_response_header: true,
        log_response_body: true,
        body_size_limit: 4,
    }
}

fn headers() -> Vec<(String, Option<String>)> {
    vec![
        ("authorization".to_string(), Some("Bearer secret-token".to_string())),
        ("accept".to_string(), Some("text/plain".to_string())),
        ("x-raw".to_string(), None),
    ]
}

fn sensitive() -> SensitiveHeaders {
    let mut s = SensitiveHeaders::new();
    s.insert("Authorization");
    s
}

#[test]
fn request_trace_lines_mask_and_truncate() {
    let lines = log_request(
        "POST",
        "https://example.test/a",
        &headers(),
        Some(b"hello world"),
        &options(),
        &sensitive(),
        &redactor(),
    );
    let head = lines[0].clone();
    assert!(head.starts_with("--> POST https://example.test/"), "{head}");
    assert_eq!(
        lines[1..].to_vec(),
        vec![
            "authorization: Be****en",
            "accept: text/plain",
            "x-raw: <non-utf8>",
            "Request body: hell...<truncated 7 bytes>",
        ]
    );
    let lines = log_request("GET", "https://example.test/", &[], None, &options(), &sensitive(), &redactor());
    assert_eq!(lines, vec!["--> GET https://example.test/", "Request body: <empty>"]);
}

#[test]
fn response_trace_lines_follow_switches() {
    let mut o = options();
    o.log_response_header = false;
    let lines = log_response(200, "https://example.test/a", &headers(), b"ok", &o, &sensitive(), &redactor());
    assert!(lines[0].starts_with("<-- 200 https://example.test/"), "{}", lines[0]);
    assert_eq!(lines[1], "Response body: ok");
    assert_eq!(lines.len(), 2);
    o.enabled = false;
    assert!(log_response(200, "u", &headers(), b"ok", &o, &sensitive(), &redactor()).is_empty());
}

#[test]
fn stream_head_trace_lines() {
    let lines = log_stream_response_headers(201, "https://example.test/", &headers()[1..], &options(), &sensitive(), &redactor());
    assert_eq!(lines, vec!["<-- 201 https://example.test/ (stream)", "accept: text/plain", "x-raw: <non-utf8>"]);
}
