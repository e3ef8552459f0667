use qubit_http::client::sse_reconnect::{SseReconnectOptions, SseReconnectState};
use qubit_http::options::proxy_type::ProxyType;
use qubit_http::client::http_logger::{
    request_body_line, request_body_log, request_head_line, response_body_line, response_body_log,
    response_head_line, RequestBodyLog, RequestBodyShape, ResponseBodyLog, ResponseBodySource,
};
use qubit_http::client::stream_reader::{stream_read_step, StreamReadAction, StreamReadEvent};
use qubit_http::error::http_error_kind::HttpErrorKind;
use qubit_http::options::config_keys::unknown_config_paths;
use qubit_http::options::http_client_options::{factory_resolve_config_error, resolve_component_error};
use qubit_http::options::http_config_error::HttpConfigError;
use qubit_http::options::http_retry_method_policy::HttpRetryMethodPolicy;
use qubit_http::options::http_retry_options::HttpRetryOptions;
use qubit_http::time_span::TimeSpan;

#[test]
fn request_log_lines() {
    assert_eq!(request_body_log(false, RequestBodyShape::InMemory), RequestBodyLog::Omitted);
    assert_eq!(request_body_log(true, RequestBodyShape::Streaming), RequestBodyLog::Skipped);
    assert_eq!(request_head_line("GET", None), "--> GET <unresolved request URL>");
    assert_eq!(request_head_line("POST", Some("https://h/x")), "--> POST https://h/x");
    assert_eq!(
        request_body_line(RequestBodyLog::Skipped, None).as_deref(),
        Some("Request body: <skipped: streaming request body>")
    );
    assert_eq!(request_body_line(RequestBodyLog::Preview, Some("{}")).as_deref(), Some("Request body: {}"));
    assert_eq!(request_body_line(RequestBodyLog::Omitted, None), None);
}

#[test]
fn response_log_lines() {
    assert_eq!(response_body_log(true, false, ResponseBodySource::Buffered(0)), ResponseBodyLog::Empty);
    assert_eq!(response_body_log(true, false, ResponseBodySource::Buffered(3)), ResponseBodyLog::Preview);
    assert_eq!(response_body_log(true, false, ResponseBodySource::Bufferable), ResponseBodyLog::ReadThenPreview);
    assert_eq!(response_body_log(true, true, ResponseBodySource::Bufferable), ResponseBodyLog::RedactionIncomplete);
    assert_eq!(response_body_log(false, true, ResponseBodySource::Unbufferable), ResponseBodyLog::Omitted);
    assert_eq!(
        response_body_line(ResponseBodyLog::ReadThenPreview, true, None).as_deref(),
        Some("Response body: <empty>")
    );
    assert_eq!(
        response_body_line(ResponseBodyLog::Skipped, false, None).as_deref(),
        Some("Response body: <skipped: streaming or unknown-size body>")
    );
    assert_eq!(response_head_line(200, "https://h/", false), "<-- 200 https://h/");
    assert_eq!(response_head_line(200, "https://h/", true), "<-- 200 https://h/ (stream)");
}

#[test]
fn stream_read_outcomes() {
    assert!(matches!(stream_read_step(StreamReadEvent::Chunk, TimeSpan::from_secs(1), "GET", "u"), StreamReadAction::Yield));
    assert!(matches!(stream_read_step(StreamReadEvent::Ended, TimeSpan::from_secs(1), "GET", "u"), StreamReadAction::Finish));
    match stream_read_step(StreamReadEvent::TimedOut, TimeSpan::from_millis(250), "GET", "u") {
        StreamReadAction::Fail(e) => {
            assert_eq!(e.kind, HttpErrorKind::ReadTimeout);
            assert_eq!(e.message, "Read timeout after 250ms while streaming response");
            assert_eq!(e.url.as_deref(), Some("u"));
        }
        _ => panic!("failure expected"),
    }
    match stream_read_step(
        StreamReadEvent::Failed { is_timeout: true, origin_violation: false },
        TimeSpan::from_secs(1),
        "GET",
        "u",
    ) {
        StreamReadAction::Fail(e) => {
            assert_eq!(e.kind, HttpErrorKind::ReadTimeout);
            assert_eq!(e.message, "HTTP transport request failed");
            assert!(e.status.is_none() && e.source.is_none());
        }
        _ => panic!("failure expected"),
    }
    match stream_read_step(StreamReadEvent::Cancelled, TimeSpan::from_secs(1), "GET", "u") {
        StreamReadAction::Fail(e) => assert_eq!(e.kind, HttpErrorKind::Cancelled),
        _ => panic!("failure expected"),
    }
}

#[test]
fn unknown_config_keys_are_sorted_and_unique() {
    let keys: Vec<String> = ["zeta", "timeouts.read_timeout", "base_url", "alpha", "zeta", "timeoutsx"]
        .iter()
        .map(|s| s.to_string())
        .collect();
    let paths = unknown_config_paths("http", &keys, &["base_url"], &["timeouts"]);
    assert_eq!(paths, vec!["http.alpha".to_string(), "http.timeoutsx".to_string(), "http.zeta".to_string()]);
    assert!(unknown_config_paths("", &[], &[], &[]).is_empty());
}

#[test]
fn factory_and_component_error_paths() {
    let e = factory_resolve_config_error("http", HttpConfigError::invalid_value("", "m"));
    assert_eq!(e.path, "http");
    let e = factory_resolve_config_error("http", HttpConfigError::invalid_value("port", "m"));
    assert_eq!(e.path, "http.port");
    let e = resolve_component_error("http", HttpConfigError::invalid_value("proxy.port", "m"), "proxy");
    assert_eq!(e.path, "http.port");
    let e = resolve_component_error("", HttpConfigError::invalid_value("port", "m"), "proxy");
    assert_eq!(e.path, "port");
}

#[test]
fn request_overrides_replace_client_retry_settings() {
    let mut base = HttpRetryOptions::default();
    base.retry_status_codes = Some(vec![503]);
    let r = base.resolve(Some(true), Some(HttpRetryMethodPolicy::AllMethods));
    assert!(r.enabled);
    assert_eq!(r.method_policy, HttpRetryMethodPolicy::AllMethods);
    assert_eq!(r.retry_status_codes, Some(vec![503]));
    let kept = base.resolve(None, None);
    assert!(!kept.enabled);
    assert_eq!(kept.method_policy, HttpRetryMethodPolicy::IdempotentOnly);
}

#[test]
fn proxy_schemes_read_back() {
    for t in [ProxyType::Http, ProxyType::Https, ProxyType::Socks5] {
        assert_eq!(ProxyType::parse(t.scheme()), Some(t));
    }
    assert_eq!(ProxyType::parse("SOCKS5"), Some(ProxyType::Socks5));
}

#[test]
fn last_event_id_follows_latest_event_with_id() {
    let options = SseReconnectOptions {
        max_reconnects: 0,
        reconnect_delay: TimeSpan::from_secs(1),
        reconnect_on_eof: false,
        honor_server_retry: false,
    };
    let mut state = SseReconnectState::new(&options);
    state.on_event(&options, Some("1".to_string()), Some(5));
    state.on_event(&options, Some("2".to_string()), None);
    state.on_event(&options, None, None);
    assert_eq!(state.last_event_id.as_deref(), Some("2"));
    assert_eq!(state.reconnect_delay, TimeSpan::from_secs(1));
    assert!(!state.on_end(&options));
}
