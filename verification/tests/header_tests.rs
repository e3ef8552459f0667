use qubit_http::client::url_resolution::{resolve_url, validate_resolved_url_host};
use qubit_http::error::http_status_response::HttpStatusResponse;
use qubit_http::response::HttpResponse;
use qubit_http::error::backend_error_mapper::{
    classify_reqwest_timeout_kind, map_reqwest_error, ReqwestErrorPhase, TransportFailure,
};
use qubit_http::error::http_error_kind::HttpErrorKind;
use qubit_http::error::http_error::HttpError;
use qubit_http::header::{parse_header, parse_headers};
use qubit_http::options::http_client_options::HttpClientOptions;
use qubit_http::redact::body_preview::BodyPreview;

fn failure() -> TransportFailure {
    TransportFailure {
        is_timeout: false,
        is_connect: false,
        is_decode: false,
        is_status: false,
        is_request: false,
        has_url: true,
    }
}

#[test]
fn timeout_kind_follows_phase_and_connect() {
    assert_eq!(
        classify_reqwest_timeout_kind(true, Some(ReqwestErrorPhase::Send)),
        HttpErrorKind::ConnectTimeout
    );
    assert_eq!(
        classify_reqwest_timeout_kind(false, Some(ReqwestErrorPhase::Send)),
        HttpErrorKind::RequestTimeout
    );
    assert_eq!(
        classify_reqwest_timeout_kind(true, Some(ReqwestErrorPhase::Read)),
        HttpErrorKind::ReadTimeout
    );
    assert_eq!(classify_reqwest_timeout_kind(true, None), HttpErrorKind::RequestTimeout);
}

#[test]
fn transport_failure_kinds_and_message() {
    let timeout = TransportFailure { is_timeout: true, is_decode: true, ..failure() };
    let e = map_reqwest_error(
        timeout,
        "operation timed out",
        HttpErrorKind::Transport,
        Some(ReqwestErrorPhase::Read),
        Some("GET"),
        Some("https://example.test/a"),
    );
    assert_eq!(e.kind, HttpErrorKind::ReadTimeout);
    assert_eq!(e.message, "HTTP transport error: operation timed out");
    assert_eq!(e.method.as_deref(), Some("GET"));
    assert_eq!(e.url.as_deref(), Some("https://example.test/a"));

    let decode = TransportFailure { is_decode: true, is_status: true, ..failure() };
    let e = map_reqwest_error(decode, "bad body", HttpErrorKind::Transport, None, None, None);
    assert_eq!(e.kind, HttpErrorKind::Decode);
    assert!(e.method.is_none() && e.url.is_none());

    let status = TransportFailure { is_status: true, ..failure() };
    let e = map_reqwest_error(status, "404", HttpErrorKind::Transport, None, None, None);
    assert_eq!(e.kind, HttpErrorKind::Status);

    let no_url = TransportFailure { is_request: true, has_url: false, ..failure() };
    let e = map_reqwest_error(no_url, "builder", HttpErrorKind::Transport, None, None, None);
    assert_eq!(e.kind, HttpErrorKind::InvalidUrl);

    let with_url = TransportFailure { is_request: true, ..failure() };
    let e = map_reqwest_error(with_url, "refused", HttpErrorKind::Transport, None, None, None);
    assert_eq!(e.kind, HttpErrorKind::Transport);
}

#[test]
fn parse_header_canonicalises_and_rejects() {
    assert_eq!(
        parse_header("X-Client-ID", "demo").ok_or_panic(),
        ("x-client-id".to_string(), "demo".to_string())
    );
    let e = parse_header("bad name", "v").unwrap_err();
    assert_eq!(e.kind, HttpErrorKind::Other);
    assert_eq!(e.message, "Invalid header name 'bad name': invalid HTTP header name");
    let e = parse_header("x-ok", "line\nbreak").unwrap_err();
    assert_eq!(e.message, "Invalid header value for 'x-ok': failed to parse header value");
    let e = parse_headers(&[("a", "1"), ("", "2"), ("b", "\u{7f}")]).unwrap_err();
    assert_eq!(e.message, "Invalid header name '': invalid HTTP header name");
}

#[test]
fn options_add_header_sets_and_replaces() {
    let mut options = HttpClientOptions::new();
    options.add_header("x-client-id", "demo").ok_or_panic();
    options.add_header("Accept", "text/plain").ok_or_panic();
    options.add_header("X-Client-Id", "other").ok_or_panic();
    assert_eq!(
        options.default_headers,
        vec![
            ("x-client-id".to_string(), "other".to_string()),
            ("accept".to_string(), "text/plain".to_string()),
        ]
    );
    assert!(options.add_header("x y", "z").is_err());
    assert_eq!(options.default_headers.len(), 2);
}

#[test]
fn options_add_headers_is_all_or_nothing() {
    let mut options = HttpClientOptions::new();
    options.add_header("a", "0").ok_or_panic();
    let e = options.add_headers(&[("b", "1"), ("c", "bad\r")]).unwrap_err();
    assert_eq!(e.message, "Invalid header value for 'c': failed to parse header value");
    assert_eq!(options.default_headers, vec![("a".to_string(), "0".to_string())]);
    options.add_headers(&[("B", "1"), ("a", "2"), ("b", "3")]).ok_or_panic();
    assert_eq!(
        options.default_headers,
        vec![
            ("a".to_string(), "2".to_string()),
            ("b".to_string(), "3".to_string()),
        ]
    );
}

#[test]
fn body_preview_limit_is_at_least_one() {
    let body = b"hello";
    let p = BodyPreview::new(body, 0);
    assert_eq!(p.limit(), 1);
    assert!(p.is_truncated());
    assert_eq!(p.shown(), b"h");
    let p = BodyPreview::new(body, 5);
    assert!(!p.is_truncated());
    assert_eq!(p.shown(), b"hello");
    assert_eq!(p.bytes(), b"hello");
}

#[test]
fn status_response_keeps_capture() {
    let r = HttpStatusResponse::new(
        vec![("retry-after".to_string(), "5".to_string())],
        b"busy".to_vec(),
        true,
        Some(1024),
    );
    assert_eq!(r.headers(), &[("retry-after".to_string(), "5".to_string())][..]);
    assert_eq!(r.body(), b"busy");
    assert!(r.is_truncated());
    assert_eq!(r.content_length(), Some(1024));
}

#[test]
fn response_text_decodes_or_fails_with_context() {
    let ok = HttpResponse::new(200, vec![], "héllo".as_bytes().to_vec(), "https://example.test/".to_string());
    assert!(ok.is_success());
    assert_eq!(ok.text().ok_or_panic(), "héllo");
    let bad = HttpResponse::new(502, vec![], vec![0x66, 0xff], "https://example.test/x".to_string());
    assert!(!bad.is_success());
    let e = bad.text().unwrap_err();
    assert_eq!(e.kind, HttpErrorKind::Decode);
    assert_eq!(
        e.message,
        "Failed to decode response body as UTF-8: invalid utf-8 sequence of 1 bytes from index 1"
    );
    assert_eq!(e.status, Some(502));
    assert_eq!(e.url.as_deref(), Some("https://example.test/x"));
}

#[test]
fn request_paths_resolve_against_base() {
    assert_eq!(
        resolve_url("https://other.test/x?q=1", Some("https://example.test/api/"), false).ok_or_panic(),
        "https://other.test/x?q=1"
    );
    assert_eq!(
        resolve_url("users/1", Some("https://example.test/api/"), false).ok_or_panic(),
        "https://example.test/api/users/1"
    );
    assert_eq!(
        resolve_url("/root", Some("https://example.test/api/"), false).ok_or_panic(),
        "https://example.test/root"
    );
    let e = resolve_url("users", None, false).unwrap_err();
    assert_eq!(e.kind, HttpErrorKind::InvalidUrl);
    assert_eq!(e.message, "Cannot resolve relative path 'users' without base_url");
    let e = resolve_url("x", Some("data:text/plain,hi"), false).unwrap_err();
    assert_eq!(
        e.message,
        "Failed to resolve path 'x' against base URL 'data:text/plain,hi': relative URL with a cannot-be-a-base base"
    );
}

#[test]
fn ipv6_hosts_refused_only_under_ipv4_only() {
    assert!(resolve_url("http://[::1]:8080/a", None, false).is_ok());
    let e = resolve_url("http://[::1]:8080/a", None, true).unwrap_err();
    assert_eq!(e.kind, HttpErrorKind::InvalidUrl);
    assert_eq!(e.message, "IPv6 literal host is not allowed when ipv4_only=true: http://[::1]:8080/a");
    assert!(validate_resolved_url_host("http://127.0.0.1/", true).is_ok());
}

trait OkOrPanic<T> {
    fn ok_or_panic(self) -> T;
}

impl<T> OkOrPanic<T> for Result<T, HttpError> {
    fn ok_or_panic(self) -> T {
        match self {
            Ok(v) => v,
            Err(e) => panic!("unexpected error: {}", e.debug_text()),
        }
    }
}
