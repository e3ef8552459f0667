use qubit_http::options::http_client_options::{
    default_headers_from_config, parse_base_url, parse_sse_done_marker, parse_sse_json_mode,
    parse_url_path_policy, resolve_config_error, validate_positive_limit, validate_redaction_field,
    DefaultHeadersInput, HttpClientConfigInput, HttpClientOptions, HttpClientRootInput,
    LogRedactionConfigInput, SseConfigInput, UrlPathRendering,
};
use qubit_http::options::http_config_error::{ArgumentFailure, HttpConfigError};
use qubit_http::options::http_config_error_kind::HttpConfigErrorKind;
use qubit_http::options::http_retry_method_policy::HttpRetryMethodPolicy;
use qubit_http::options::http_retry_options::{
    default_retryable_error_kind, is_retryable_error_kind, is_retryable_status,
    parse_retry_delay_strategy, parse_retry_error_kinds, parse_retry_status_codes, HttpRetryOptions,
    RetryDelayDurations, RetryDelayPlan,
};
use qubit_http::options::http_timeout_options::{validate_positive_duration, HttpTimeoutOptions};
use qubit_http::options::logging_options::HttpLoggingOptions;
use qubit_http::options::proxy_options::ProxyOptions;
use qubit_http::options::proxy_type::ProxyType;
use qubit_http::options::sse_decode_options::{SseDecodeOptions, SseJsonMode};
use qubit_http::error::http_error_kind::HttpErrorKind;
use qubit_http::time_span::TimeSpan;
use qubit_http::SensitiveHeaders;

fn strings(items: &[&str]) -> Vec<String> {
    items.iter().map(|s| s.to_string()).collect()
}

fn no_delays() -> RetryDelayDurations {
    RetryDelayDurations {
        fixed_delay: None,
        random_min_delay: None,
        random_max_delay: None,
        backoff_initial_delay: None,
        backoff_max_delay: None,
    }
}

#[test]
fn config_error_text_has_kind_path_and_message() {
    let e = HttpConfigError::invalid_value("proxy.port", "bad");
    assert_eq!(e.to_text(), "[invalid value] proxy.port: bad");
    let m = HttpConfigError::missing("a", "b");
    assert_eq!(m.kind, HttpConfigErrorKind::MissingField);
    let f = HttpConfigError::from_argument_failure("x", ArgumentFailure::Missing);
    assert_eq!(f.kind, HttpConfigErrorKind::MissingField);
    assert_eq!(f.message, "Required value is missing");
}

#[test]
fn timeouts_default_and_validation() {
    let d = HttpTimeoutOptions::default();
    assert_eq!(d.connect_timeout, TimeSpan::from_secs(10));
    assert_eq!(d.read_timeout, TimeSpan::from_secs(120));
    assert_eq!(d.write_timeout, TimeSpan::from_secs(120));
    assert_eq!(d.request_timeout, None);
    assert!(d.validate().is_ok());
    let zero = validate_positive_duration("read_timeout", TimeSpan::zero()).unwrap_err();
    assert_eq!(zero.path, "read_timeout");
    assert_eq!(zero.message, "Timeout value must be greater than 0");
    let built = HttpTimeoutOptions::from_config_input(Some(TimeSpan::from_secs(1)), None, None, Some(TimeSpan::zero()));
    let e = built.unwrap_err();
    assert_eq!(e.path, "request_timeout");
    let ok = HttpTimeoutOptions::from_config_input(None, Some(TimeSpan::from_millis(1500)), None, None).unwrap();
    assert_eq!(ok.read_timeout, TimeSpan::from_millis(1500));
    assert_eq!(ok.connect_timeout, TimeSpan::from_secs(10));
}

#[test]
fn logging_options_need_positive_body_limit_for_bodies() {
    let d = HttpLoggingOptions::default();
    assert!(d.enabled && d.log_request_body && d.log_response_body);
    assert_eq!(d.body_size_limit, 16384);
    let bad = HttpLoggingOptions::from_config_input(None, None, None, None, None, Some(0));
    let e = bad.validate().unwrap_err();
    assert_eq!(e.path, "logging.body_size_limit");
    let quiet = HttpLoggingOptions::from_config_input(None, None, Some(false), None, Some(false), Some(0));
    assert!(quiet.validate().is_ok());
}

#[test]
fn sse_decode_options_raise_zero_limits() {
    let o = SseDecodeOptions::new(SseJsonMode::Strict, 0, 0);
    assert_eq!(o.max_line_bytes, 1);
    assert_eq!(o.max_frame_bytes, 1);
    let d = SseDecodeOptions::default();
    assert_eq!(d.json_mode, SseJsonMode::Lenient);
    assert_eq!(d.max_line_bytes, 65536);
    assert_eq!(d.max_frame_bytes, 1048576);
}

#[test]
fn retry_method_policy_parses_aliases() {
    assert_eq!(HttpRetryMethodPolicy::from_config_value(" idempotent ").unwrap(), HttpRetryMethodPolicy::IdempotentOnly);
    assert_eq!(HttpRetryMethodPolicy::from_config_value("ALL").unwrap(), HttpRetryMethodPolicy::AllMethods);
    assert_eq!(HttpRetryMethodPolicy::from_config_value("disabled").unwrap(), HttpRetryMethodPolicy::Disabled);
    let e = HttpRetryMethodPolicy::from_config_value("sometimes").unwrap_err();
    assert_eq!(e.path, "method_policy");
    assert_eq!(e.message, "Unsupported retry method policy: sometimes");
    assert!(HttpRetryMethodPolicy::IdempotentOnly.allows_method("PUT"));
    assert!(!HttpRetryMethodPolicy::IdempotentOnly.allows_method("POST"));
    assert!(HttpRetryMethodPolicy::AllMethods.allows_method("POST"));
    assert!(!HttpRetryMethodPolicy::Disabled.allows_method("GET"));
    for p in [HttpRetryMethodPolicy::IdempotentOnly, HttpRetryMethodPolicy::AllMethods, HttpRetryMethodPolicy::Disabled] {
        assert_eq!(HttpRetryMethodPolicy::from_config_value(p.as_str()).unwrap(), p);
    }
}

#[test]
fn retry_status_codes_are_sorted_and_unique() {
    let codes = parse_retry_status_codes(&strings(&["503", " 429", "503", "500"])).unwrap();
    assert_eq!(codes, vec![429, 500, 503]);
    let blank = parse_retry_status_codes(&strings(&["500", "  "])).unwrap_err();
    assert_eq!(blank.message, "Retry status_codes cannot contain blank values");
    let word = parse_retry_status_codes(&strings(&["abc"])).unwrap_err();
    assert_eq!(word.message, "Invalid retry status code 'abc': invalid digit found in string");
    let huge = parse_retry_status_codes(&strings(&["70000"])).unwrap_err();
    assert_eq!(huge.message, "Invalid retry status code '70000': number too large to fit in target type");
    let range = parse_retry_status_codes(&strings(&["600"])).unwrap_err();
    assert_eq!(range.message, "Retry status code must be in range 100..=599, got 600");
    assert_eq!(range.path, "status_codes");
}

#[test]
fn retry_error_kinds_accept_dashes_and_drop_repeats() {
    let kinds = parse_retry_error_kinds(&strings(&["read-timeout", "transport", "read_timeout"])).unwrap();
    assert_eq!(kinds, vec![HttpErrorKind::ReadTimeout, HttpErrorKind::Transport]);
    let e = parse_retry_error_kinds(&strings(&["nope"])).unwrap_err();
    assert_eq!(e.message, "Unsupported retry error kind: nope");
    assert_eq!(e.path, "error_kinds");
    let blank = parse_retry_error_kinds(&strings(&[" "])).unwrap_err();
    assert_eq!(blank.message, "Retry error_kinds cannot contain blank values");
}

#[test]
fn retry_delay_strategy_words() {
    assert_eq!(parse_retry_delay_strategy("None", no_delays()).unwrap(), RetryDelayPlan::NoDelay);
    assert_eq!(parse_retry_delay_strategy("fixed", no_delays()).unwrap(), RetryDelayPlan::Fixed(TimeSpan::from_millis(200)));
    assert_eq!(
        parse_retry_delay_strategy("Exponential-Backoff", no_delays()).unwrap(),
        RetryDelayPlan::Exponential { initial: TimeSpan::from_millis(200), max: TimeSpan::from_secs(5) }
    );
    let mut delays = no_delays();
    delays.random_max_delay = Some(TimeSpan::from_secs(9));
    assert_eq!(
        parse_retry_delay_strategy("random", delays).unwrap(),
        RetryDelayPlan::Random { min: TimeSpan::from_millis(200), max: TimeSpan::from_secs(9) }
    );
    let e = parse_retry_delay_strategy("linear", no_delays()).unwrap_err();
    assert_eq!(e.message, "Unsupported retry delay strategy: linear");
}

#[test]
fn retry_options_decisions() {
    let mut o = HttpRetryOptions::default();
    assert!(!o.allows_method("GET"));
    o.enabled = true;
    assert!(o.allows_method("GET"));
    assert!(o.should_retry("GET"));
    assert!(!o.should_retry("POST"));
    o.max_attempts = 1;
    assert!(!o.should_retry("GET"));
    assert!(o.is_retryable_status(502));
    assert!(!o.is_retryable_status(404));
    o.retry_status_codes = Some(vec![404]);
    assert!(o.is_retryable_status(404));
    assert!(!o.is_retryable_status(502));
    assert!(o.is_retryable_error_kind(HttpErrorKind::WriteTimeout));
    assert!(!o.is_retryable_error_kind(HttpErrorKind::Decode));
    assert!(default_retryable_error_kind(HttpErrorKind::Transport));
    assert!(is_retryable_status(418, Some(&[418])));
    assert!(!is_retryable_error_kind(HttpErrorKind::Transport, Some(&[])));
    o.max_attempts = 0;
    let e = o.validate().unwrap_err();
    assert_eq!(e.path, "max_attempts");
}

#[test]
fn retry_options_from_config_checks_in_order() {
    let codes = strings(&["418"]);
    let o = HttpRetryOptions::from_config_input(
        Some(true),
        Some(5),
        None,
        Some("fixed"),
        no_delays(),
        Some("all"),
        Some(&codes),
        None,
    )
    .unwrap();
    assert!(o.enabled);
    assert_eq!(o.max_attempts, 5);
    assert_eq!(o.method_policy, HttpRetryMethodPolicy::AllMethods);
    assert_eq!(o.retry_status_codes, Some(vec![418]));
    assert_eq!(o.delay_strategy, RetryDelayPlan::Fixed(TimeSpan::from_millis(200)));
    let bad = HttpRetryOptions::from_config_input(None, Some(0), None, Some("weird"), no_delays(), None, None, None)
        .unwrap_err();
    assert_eq!(bad.path, "delay_strategy");
    let zero = HttpRetryOptions::from_config_input(None, Some(0), None, None, no_delays(), None, None, None).unwrap_err();
    assert_eq!(zero.path, "max_attempts");
}

#[test]
fn proxy_options_validation_messages() {
    let mut p = ProxyOptions::default_options();
    assert!(p.validate().is_ok());
    p.enabled = true;
    assert_eq!(p.validate().unwrap_err().path, "proxy.host");
    p.host = Some("  ".to_string());
    assert_eq!(p.validate().unwrap_err().message, "Proxy host cannot be empty when proxy is enabled");
    p.host = Some("proxy.local".to_string());
    p.port = Some(0);
    assert_eq!(p.validate().unwrap_err().message, "Proxy port must be greater than 0");
    p.port = Some(8080);
    p.password = Some("secret".to_string());
    assert_eq!(p.validate().unwrap_err().message, "Proxy password is configured but username is missing");
    assert_eq!(ProxyType::Socks5.scheme(), "socks5h");
    assert_eq!(ProxyType::parse("HTTPS"), Some(ProxyType::Https));
}

#[test]
fn sensitive_headers_insert_then_contains() {
    let mut h = SensitiveHeaders::new();
    assert!(h.is_empty());
    h.insert("  X-Api-Key ");
    h.insert("x-api-key");
    h.insert("   ");
    assert_eq!(h.len(), 1);
    assert!(h.contains("X-API-KEY"));
    h.extend(&["Authorization", "cookie"]);
    assert_eq!(h.iter(), vec!["authorization".to_string(), "cookie".to_string(), "x-api-key".to_string()]);
    h.clear();
    assert_eq!(h.len(), 0);
}

#[test]
fn client_option_helpers() {
    assert_eq!(parse_base_url("https://example.com").unwrap(), "https://example.com/");
    let e = parse_base_url("not a url").unwrap_err();
    assert_eq!(e.path, "base_url");
    assert!(e.message.starts_with("Invalid URL: "));
    assert_eq!(parse_sse_json_mode(" strict ").unwrap(), SseJsonMode::Strict);
    assert_eq!(parse_sse_json_mode("loose").unwrap_err().message, "Unsupported SSE JSON mode: loose");
    assert_eq!(parse_sse_done_marker(" [DONE] ").unwrap(), "[DONE]");
    assert_eq!(parse_sse_done_marker("  ").unwrap_err().path, "done_marker");
    assert_eq!(parse_url_path_policy("Preserve").unwrap(), UrlPathRendering::Preserve);
    assert_eq!(parse_url_path_policy("hide").unwrap_err().message, "Unsupported URL path policy: hide");
    assert_eq!(validate_positive_limit("x", 3).unwrap(), 3);
    assert_eq!(validate_positive_limit("x", 0).unwrap_err().message, "Value must be greater than 0");
    assert!(validate_redaction_field("sensitive_headers", "x-token").is_ok());
    assert!(validate_redaction_field("sensitive_headers", "   ").is_err());
}

#[test]
fn resolve_config_error_paths() {
    let r = resolve_config_error("http", HttpConfigError::invalid_value("", "m"));
    assert_eq!(r.path, "http");
    let r = resolve_config_error("http", HttpConfigError::invalid_value("port", "m"));
    assert_eq!(r.path, "http.port");
    let again = resolve_config_error("http", r.duplicate());
    assert_eq!(again.path, "http.port");
    let r = resolve_config_error("", HttpConfigError::invalid_value("port", "m"));
    assert_eq!(r.path, "port");
}

#[test]
fn default_headers_from_sub_keys_and_json() {
    let sub = DefaultHeadersInput {
        entries: Ok(vec![("X-Trace".to_string(), "1".to_string()), ("x-trace".to_string(), "2".to_string())]),
        json: Ok(None),
    };
    let headers = default_headers_from_config("http", sub).unwrap();
    assert_eq!(headers, vec![("x-trace".to_string(), "2".to_string())]);
    let json = DefaultHeadersInput { entries: Ok(vec![]), json: Ok(Some("{\"Accept\":\"text/plain\"}".to_string())) };
    let headers = default_headers_from_config("", json).unwrap();
    assert_eq!(headers, vec![("accept".to_string(), "text/plain".to_string())]);
    let both = DefaultHeadersInput {
        entries: Ok(vec![("a".to_string(), "1".to_string())]),
        json: Ok(Some("{}".to_string())),
    };
    let e = default_headers_from_config("http", both).unwrap_err();
    assert_eq!(e.path, "http.default_headers");
    let broken = DefaultHeadersInput { entries: Ok(vec![]), json: Ok(Some("{".to_string())) };
    let e = default_headers_from_config("", broken).unwrap_err();
    assert_eq!(e.kind, HttpConfigErrorKind::TypeError);
    assert!(e.message.starts_with("Failed to parse default_headers JSON: "));
    let bad_name = DefaultHeadersInput { entries: Ok(vec![("bad name".to_string(), "v".to_string())]), json: Ok(None) };
    let e = default_headers_from_config("", bad_name).unwrap_err();
    assert_eq!(e.kind, HttpConfigErrorKind::InvalidHeader);
    assert_eq!(e.path, "default_headers.bad name");
    assert_eq!(e.message, "Invalid header name 'bad name': invalid HTTP header name");
    let bad_value = DefaultHeadersInput { entries: Ok(vec![("x".to_string(), "a\nb".to_string())]), json: Ok(None) };
    let e = default_headers_from_config("", bad_value).unwrap_err();
    assert_eq!(e.message, "Invalid header value for 'x': failed to parse header value");
}

fn empty_root() -> HttpClientRootInput {
    HttpClientRootInput {
        base_url: None,
        ipv4_only: None,
        error_response_preview_limit: None,
        response_body_size_limit: None,
        user_agent: None,
        max_redirects: None,
        pool_idle_timeout: None,
        pool_max_idle_per_host: None,
        use_env_proxy: None,
    }
}

fn config(root: HttpClientRootInput) -> HttpClientConfigInput {
    HttpClientConfigInput {
        path: "http".to_string(),
        root: Ok(root),
        timeouts: None,
        proxy: None,
        logging: None,
        retry: None,
        sse: None,
        log_redaction: None,
        default_headers: DefaultHeadersInput { entries: Ok(vec![]), json: Ok(None) },
    }
}

#[test]
fn client_options_from_config() {
    let mut root = empty_root();
    root.base_url = Some("https://api.example.com/v1".to_string());
    root.user_agent = Some("  agent/1 ".to_string());
    root.ipv4_only = Some(true);
    let mut c = config(root);
    c.sse = Some(Ok(SseConfigInput {
        json_mode: Some("STRICT".to_string()),
        done_marker: Some(" [END] ".to_string()),
        max_line_bytes: Some(10),
        max_frame_bytes: None,
    }));
    c.log_redaction = Some(Ok(LogRedactionConfigInput {
        url_path_policy: Some("redact".to_string()),
        sensitive_headers: Some(vec!["x-token".to_string()]),
        sensitive_query_params: None,
        sensitive_body_fields: None,
        excluded_sensitive_headers: None,
        excluded_sensitive_query_params: None,
        excluded_sensitive_body_fields: None,
    }));
    let o = HttpClientOptions::from_config_input(c).unwrap();
    assert_eq!(o.base_url.as_deref(), Some("https://api.example.com/v1"));
    assert_eq!(o.user_agent.as_deref(), Some("agent/1"));
    assert!(o.ipv4_only);
    assert_eq!(o.sse_json_mode, SseJsonMode::Strict);
    assert_eq!(o.sse_done_marker.as_deref(), Some("[END]"));
    assert_eq!(o.sse_max_line_bytes, 10);
    assert_eq!(o.log_redaction.url_path_policy, Some(UrlPathRendering::Redact));
    assert_eq!(o.log_redaction.sensitive_headers, vec!["x-token".to_string()]);
    assert!(o.validate().is_ok());
}

#[test]
fn client_options_from_config_reports_resolved_paths() {
    let mut root = empty_root();
    root.response_body_size_limit = Some(0);
    let e = HttpClientOptions::from_config_input(config(root)).unwrap_err();
    assert_eq!(e.path, "http.response_body_size_limit");
    let mut c = config(empty_root());
    c.sse = Some(Ok(SseConfigInput { json_mode: None, done_marker: None, max_line_bytes: None, max_frame_bytes: Some(0) }));
    let e = HttpClientOptions::from_config_input(c).unwrap_err();
    assert_eq!(e.path, "http.sse.max_frame_bytes");
    let mut c = config(empty_root());
    c.timeouts = Some(Err(HttpConfigError::invalid_value("connect_timeout", "Timeout value must be greater than 0")));
    let e = HttpClientOptions::from_config_input(c).unwrap_err();
    assert_eq!(e.path, "http.timeouts.connect_timeout");
    let mut c = config(empty_root());
    c.root = Err(HttpConfigError::type_error("ipv4_only", "not a bool"));
    let e = HttpClientOptions::from_config_input(c).unwrap_err();
    assert_eq!(e.path, "http.ipv4_only");
}

#[test]
fn client_options_validate_in_order() {
    let mut o = HttpClientOptions::new();
    assert!(o.validate().is_ok());
    o.timeouts.write_timeout = TimeSpan::zero();
    assert_eq!(o.validate().unwrap_err().path, "timeouts.write_timeout");
    o.timeouts = HttpTimeoutOptions::default();
    o.retry.max_attempts = 0;
    assert_eq!(o.validate().unwrap_err().path, "retry.max_attempts");
    o.retry.max_attempts = 3;
    o.user_agent = Some(" ".to_string());
    assert_eq!(o.validate().unwrap_err().message, "Value cannot be empty");
    o.user_agent = Some("a\u{7f}".to_string());
    assert_eq!(o.validate().unwrap_err().message, "Invalid header value: failed to parse header value");
    o.user_agent = None;
    o.sse_max_line_bytes = 0;
    assert_eq!(o.validate().unwrap_err().path, "sse.max_line_bytes");
    assert!(o.set_base_url("::").is_err());
    assert!(o.set_base_url("http://h").is_ok());
    assert_eq!(o.base_url.as_deref(), Some("http://h/"));
}

#[test]
fn absent_sections_keep_all_defaults() {
    let o = HttpClientOptions::from_config_input(config(empty_root())).unwrap();
    assert!(!o.proxy.enabled);
    assert_eq!(o.proxy.proxy_type, ProxyType::Http);
    assert!(o.proxy.host.is_none() && o.proxy.port.is_none());
    assert!(o.proxy.username.is_none() && o.proxy.password.is_none());
    assert!(!o.retry.enabled);
    assert_eq!(o.retry.max_attempts, 3);
    assert!(o.retry.max_duration.is_none());
    assert_eq!(o.retry.method_policy, HttpRetryMethodPolicy::IdempotentOnly);
    assert!(o.retry.retry_status_codes.is_none() && o.retry.retry_error_kinds.is_none());
    assert!(o.log_redaction.sensitive_query_params.is_empty());
}

#[test]
fn sensitive_names_match_ignoring_ascii_case() {
    let mut h = SensitiveHeaders::new();
    h.insert("  X-Api-Key ");
    assert!(h.contains("x-api-key"));
    assert!(h.contains("X-API-KEY"));
    let mut a = SensitiveHeaders::new();
    a.extend(&["B", " ", "a", "b"]);
    let mut b = SensitiveHeaders::new();
    for n in ["B", " ", "a", "b"] {
        b.insert(n);
    }
    assert_eq!(a.iter(), b.iter());
    assert_eq!(a.iter(), vec!["a".to_string(), "b".to_string()]);
    for n in a.iter() {
        assert!(!n.is_empty() && n == n.trim() && n == n.to_lowercase());
    }
}
