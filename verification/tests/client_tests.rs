use qubit_http::client::attempt_context::HttpAttemptExecutionContext;
use qubit_http::client::http_client_factory::{map_validation_error, prefix_config_error, HttpClientFactory, ProxyPlan};
use qubit_http::client::response_checks::{cancelled_request_error_if_needed, ensure_success_status};
use qubit_http::client::retry_errors::{is_retryable_error, map_retry_error, RetryStop};
use qubit_http::client::retry_flow::{
    decide, map_retry_exit, retry_after_extra_delay, take_pending_retry_after_delay, AttemptFailure,
    RetryExit, RuleDecision,
};
use qubit_http::client::sse_reconnect::{should_reconnect_sse_error, SseReconnectOptions, SseReconnectState};
use qubit_http::error::http_error::{ErrorSource, HttpError};
use qubit_http::error::http_error_kind::HttpErrorKind;
use qubit_http::error::http_retry_termination::HttpRetryTermination;
use qubit_http::options::http_client_options::{HttpClientOptions, LogRedactionSettings};
use qubit_http::options::http_config_error::HttpConfigError;
use qubit_http::options::http_retry_options::HttpRetryOptions;
use qubit_http::redact::redacted_debugger::{find_url_start, url_candidate_end, url_spans};
use qubit_http::time_span::TimeSpan;

fn ok<T>(r: Result<T, HttpError>) -> T {
    match r {
        Ok(v) => v,
        Err(e) => panic!("unexpected error: {}", e.debug_text()),
    }
}

fn status_error() -> HttpError {
    HttpError::other("service unavailable")
        .with_method("POST")
        .with_url("https://example.test/request?tenant_marker=conversion-secret")
        .with_status(503)
        .with_response_body_preview("retry later")
        .with_retry_after(TimeSpan::from_secs(2))
}

#[test]
fn test_retry_conversion_retains_complete_source_and_http_fields() {
    for abort in [false, true] {
        let mut redaction = LogRedactionSettings::new();
        redaction.sensitive_query_params.push("tenant_marker".to_string());
        let mut last = status_error()
            .with_source(ErrorSource::Described("backend error".to_string()))
            .with_log_redaction(redaction);
        last.kind = HttpErrorKind::Status;
        let stop = if abort { RetryStop::Aborted } else { RetryStop::AttemptsExhausted };
        let mapped = map_retry_error(
            stop,
            1,
            TimeSpan::zero(),
            None,
            1,
            Some(last),
            "POST",
            Some("https://example.test/request?tenant_marker=conversion-secret"),
        );
        let retry_source = match mapped.source.as_deref() {
            Some(ErrorSource::Retry { last_error }) => last_error.as_ref().expect("retry source"),
            _ => panic!("retry source"),
        };
        match retry_source.source.as_deref() {
            Some(ErrorSource::Described(text)) => assert_eq!(text, "backend error"),
            _ => panic!("backend source"),
        }
        assert_eq!(mapped.kind, HttpErrorKind::Status);
        assert_eq!(mapped.method.as_deref(), Some("POST"));
        assert_eq!(mapped.url.as_deref(), Some("https://example.test/request?tenant_marker=conversion-secret"));
        assert_eq!(mapped.status, Some(503));
        assert_eq!(mapped.response_body_preview.as_deref(), Some("retry later"));
        assert_eq!(mapped.retry_after, Some(TimeSpan::from_secs(2)));
        assert!(!mapped.debug_text().contains("conversion-secret"));
    }
}

#[test]
fn retry_error_messages_and_diagnostics() {
    let last = HttpError::transport("reset");
    let exhausted = map_retry_error(RetryStop::AttemptsExhausted, 3, TimeSpan::from_secs(1), None, 3, Some(last), "GET", None);
    assert_eq!(exhausted.message, "reset (retry attempts exhausted: 3/3)");
    let d = exhausted.retry_diagnostics.unwrap();
    assert_eq!(d.attempts(), 3);
    assert_eq!(d.elapsed(), TimeSpan::from_secs(1));
    assert_eq!(d.termination(), HttpRetryTermination::AttemptsExhausted);
    let cancelled = map_retry_error(
        RetryStop::Cancelled { phase: "backoff".to_string() },
        2,
        TimeSpan::zero(),
        None,
        3,
        None,
        "GET",
        Some("http://h/"),
    );
    assert_eq!(cancelled.kind, HttpErrorKind::Cancelled);
    assert_eq!(cancelled.message, "HTTP retry cancelled during backoff");
    assert_eq!(cancelled.url.as_deref(), Some("http://h/"));
    assert_eq!(cancelled.retry_diagnostics.unwrap().termination(), HttpRetryTermination::Cancelled);
    let budget = map_retry_error(
        RetryStop::ElapsedExhausted,
        4,
        TimeSpan::from_secs(6),
        Some(TimeSpan::from_secs(5)),
        9,
        None,
        "GET",
        None,
    );
    assert_eq!(budget.kind, HttpErrorKind::RetryBudgetExceeded);
    assert_eq!(budget.message, "HTTP retry max duration exceeded before a retryable error was captured: 5s");
    let timed = map_retry_error(RetryStop::TimedOut { scope: "flow".to_string() }, 2, TimeSpan::zero(), None, 3, None, "GET", None);
    assert_eq!(timed.message, "HTTP retry flow timed out after 2 attempt(s)");
    assert_eq!(timed.retry_diagnostics.unwrap().termination(), HttpRetryTermination::DurationExceeded);
    let other = map_retry_error(RetryStop::Infrastructure { failure: "clock".to_string() }, 1, TimeSpan::zero(), None, 3, None, "GET", None);
    assert_eq!(other.message, "HTTP retry infrastructure failed after 1 attempt(s): clock");
}

#[test]
fn retryable_errors_follow_options() {
    let o = HttpRetryOptions::default();
    assert!(is_retryable_error(&HttpError::status(503, "x"), &o));
    assert!(!is_retryable_error(&HttpError::status(400, "x"), &o));
    assert!(is_retryable_error(&HttpError::connect_timeout("x"), &o));
    assert!(!is_retryable_error(&HttpError::decode("x"), &o));
    let hinted = HttpError::status(503, "x").with_retry_after(TimeSpan::from_secs(4));
    assert_eq!(decide(&AttemptFailure::Error(hinted), &o, true), RuleDecision::RetryWithHint(TimeSpan::from_secs(4)));
    assert_eq!(decide(&AttemptFailure::Error(HttpError::status(503, "x")), &o, true), RuleDecision::Retry);
    assert_eq!(decide(&AttemptFailure::Error(HttpError::status(404, "x")), &o, true), RuleDecision::Abort);
    assert_eq!(
        decide(&AttemptFailure::AttemptTimeout { elapsed: TimeSpan::zero(), timeout: TimeSpan::zero() }, &o, true),
        RuleDecision::UseDefault
    );
}

#[test]
fn retry_after_extra_delay_and_pending_slot() {
    assert_eq!(retry_after_extra_delay(Some(TimeSpan::from_secs(5)), TimeSpan::from_secs(2)), Some(TimeSpan::from_secs(3)));
    assert_eq!(retry_after_extra_delay(Some(TimeSpan::from_secs(1)), TimeSpan::from_secs(2)), None);
    assert_eq!(retry_after_extra_delay(None, TimeSpan::from_secs(2)), None);
    let mut slot = Some(TimeSpan::from_millis(10));
    assert_eq!(take_pending_retry_after_delay(&mut slot), Some(TimeSpan::from_millis(10)));
    assert_eq!(take_pending_retry_after_delay(&mut slot), None);
}

#[test]
fn retry_exit_messages() {
    let e = map_retry_exit(RetryExit::AttemptsExceeded {
        attempts: 2,
        max_attempts: 2,
        last_failure: AttemptFailure::Error(HttpError::transport("reset")),
    });
    assert_eq!(e.message, "reset (retry attempts exhausted: 2/2)");
    let t = map_retry_exit(RetryExit::Aborted(AttemptFailure::AttemptTimeout {
        elapsed: TimeSpan::from_secs(2),
        timeout: TimeSpan::from_secs(1),
    }));
    assert_eq!(t.message, "HTTP retry attempt timeout after 2s (timeout: 1s)");
    let n = map_retry_exit(RetryExit::MaxElapsedExceeded {
        elapsed: TimeSpan::from_millis(1500),
        max_elapsed: TimeSpan::from_secs(1),
        last_captured: None,
    });
    assert_eq!(n.message, "HTTP retry max duration exceeded before a retryable error was captured: 1.5s/1s");
}

#[test]
fn sse_reconnects_within_budget() {
    let options = SseReconnectOptions {
        max_reconnects: 2,
        reconnect_delay: TimeSpan::from_secs(1),
        reconnect_on_eof: true,
        honor_server_retry: true,
    };
    let mut state = SseReconnectState::new(&options);
    assert!(state.last_event_id_header().is_none());
    state.on_event(&options, Some("42".to_string()), Some(0));
    assert_eq!(state.reconnect_delay, TimeSpan::from_millis(1));
    let header = ok(state.last_event_id_header().unwrap());
    assert_eq!(header, ("last-event-id".to_string(), "42".to_string()));
    assert!(state.on_failure(&options, &HttpError::transport("reset"), &[]));
    assert!(!state.on_failure(&options, &HttpError::cancelled("stop"), &[]));
    assert!(state.on_end(&options));
    assert!(!state.on_end(&options));
    assert_eq!(state.reconnect_count, 2);
    state.on_event(&options, Some("bad\nid".to_string()), None);
    let e = state.last_event_id_header().unwrap().unwrap_err();
    assert_eq!(e.message, "Invalid Last-Event-ID header value 'bad\nid': failed to parse header value");
}

#[test]
fn unexpected_eof_is_reconnectable() {
    let e = HttpError::decode("stream ended: Unexpected EOF");
    assert!(should_reconnect_sse_error(&e, &[]));
    let d = HttpError::decode("bad frame");
    assert!(!should_reconnect_sse_error(&d, &[]));
    assert!(should_reconnect_sse_error(&d, &["io: unexpected eof while reading".to_string()]));
}

#[test]
fn attempt_context_token_ownership() {
    let direct = HttpAttemptExecutionContext::direct();
    assert_eq!(direct.io_cancellation_token(Some(7)), Some(7));
    let retry = HttpAttemptExecutionContext::retry(Some(7));
    assert!(retry.should_restore_retry_flow_token(Some(7)));
    assert_eq!(retry.io_cancellation_token(Some(7)), None);
    assert_eq!(retry.io_cancellation_token(Some(8)), Some(8));
    assert!(!retry.retry_flow_owns_current_token(None));
}

#[test]
fn factory_maps_validation_errors() {
    let p = map_validation_error(HttpConfigError::invalid_value("proxy.host", "bad"));
    assert_eq!(p.kind, HttpErrorKind::ProxyConfig);
    assert_eq!(p.message, "[invalid value] proxy.host: bad");
    let o = map_validation_error(HttpConfigError::invalid_value("user_agent", "bad"));
    assert_eq!(o.kind, HttpErrorKind::Other);
    assert_eq!(o.message, "Invalid HTTP client options: [invalid value] user_agent: bad");
}

#[test]
fn factory_plans_proxy_use() {
    let factory = HttpClientFactory::new();
    let mut options = HttpClientOptions::new();
    let plan = ok(factory.plan(&options, false));
    assert!(matches!(plan.proxy, ProxyPlan::NoProxy));
    options.use_env_proxy = true;
    assert!(matches!(ok(factory.plan(&options, false)).proxy, ProxyPlan::FromEnvironment));
    options.proxy.enabled = true;
    options.proxy.host = Some("proxy.local".to_string());
    options.proxy.port = Some(3128);
    options.proxy.username = Some("u".to_string());
    match ok(factory.plan(&options, false)).proxy {
        ProxyPlan::Explicit { url, credentials } => {
            assert_eq!(url, "http://proxy.local:3128");
            assert_eq!(credentials, Some(("u".to_string(), String::new())));
        }
        _ => panic!("explicit proxy expected"),
    }
    options.ipv4_only = true;
    let e = factory.plan(&options, true).unwrap_err();
    assert_eq!(e.message, "Proxy host 'proxy.local' is IPv6, which is not allowed when ipv4_only=true");
    options.ipv4_only = false;
    options.proxy.host = Some("bad host".to_string());
    let e = factory.plan(&options, false).unwrap_err();
    assert_eq!(e.kind, HttpErrorKind::ProxyConfig);
    assert!(e.message.starts_with("Invalid proxy URL 'http://bad host:3128': "));
    options.proxy.port = None;
    let e = factory.plan(&options, false).unwrap_err();
    assert_eq!(e.message, "[missing field] proxy.port: Proxy is enabled but port is missing");
}

#[test]
fn prefix_config_error_places_paths() {
    let e = prefix_config_error("http", HttpConfigError::invalid_value("port", "m"));
    assert_eq!(e.path, "http.port");
    let again = prefix_config_error("http", e);
    assert_eq!(again.path, "http.port");
    let e = prefix_config_error("http", HttpConfigError::invalid_value("root.http.port", "m"));
    assert_eq!(e.path, "http.port");
    let e = prefix_config_error("http", HttpConfigError::invalid_value("", "m"));
    assert_eq!(e.path, "http");
    let e = prefix_config_error("", HttpConfigError::invalid_value("port", "m"));
    assert_eq!(e.path, "port");
}

#[test]
fn status_checks() {
    assert!(ensure_success_status("HTTP request failed", 204, "GET", "http://h/", "", None).is_ok());
    let e = ensure_success_status("HTTP request failed", 404, "GET", "http://h/x", "nope", None).unwrap_err();
    assert_eq!(e.message, "HTTP request failed with status 404 Not Found for GET http://h/x; response body preview: nope");
    assert_eq!(e.status, Some(404));
    let odd = ensure_success_status("p", 599, "GET", "u", "b", Some(TimeSpan::from_secs(1))).unwrap_err();
    assert_eq!(odd.message, "p with status 599 <unknown status code> for GET u; response body preview: b");
    assert_eq!(odd.retry_after, Some(TimeSpan::from_secs(1)));
    assert!(cancelled_request_error_if_needed(false, "GET", "u", "m").is_none());
    let c = cancelled_request_error_if_needed(true, "GET", "u", "cancelled").unwrap();
    assert_eq!(c.kind, HttpErrorKind::Cancelled);
}

#[test]
fn url_spans_in_text() {
    let text = "see https://a.example/x?y=1, and HTTP://b.example/z.";
    assert_eq!(find_url_start(text), Some(4));
    let spans = url_spans(text);
    assert_eq!(spans, vec![(4, 27), (33, 51)]);
    assert_eq!(url_spans("no links here"), vec![]);
    assert_eq!(url_candidate_end("http://x.io).", 0, 13), 11);
    assert_eq!(url_spans("http://a http://b"), vec![(0, 8), (9, 17)]);
}
