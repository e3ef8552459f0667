use qubit_http::content_type::{
    decode_header_parameter, has_media_type, is_multipart, is_sse, is_valid_multipart_boundary,
    media_type, parameter,
};
use qubit_http::header::{header_list_from_entries, insert_header};
use qubit_http::mask_header_value;
use qubit_http::text::{
    contains_ignore_ascii_case, dash_to_underscore, find_str, matches_ignore_case,
    parse_unsigned_bounded, parse_unsigned_detailed, trim, IntParseFailure,
};
use qubit_http::time_span::TimeSpan;
use qubit_http::SensitiveHeaders;

#[test]
fn text_helpers() {
    assert_eq!(trim("\t a b \u{3000}"), "a b");
    assert!(contains_ignore_ascii_case("An UNEXPECTED eof", "unexpected eof"));
    assert!(!contains_ignore_ascii_case("eof", "unexpected eof"));
    assert_eq!(find_str("a.b.c", ".c"), Some(3));
    assert_eq!(find_str("abc", "x"), None);
    assert_eq!(dash_to_underscore("a-b-c"), "a_b_c");
    assert!(matches_ignore_case("\u{17f}TRICT", "strict"));
    assert_eq!(parse_unsigned_bounded("+42", 100), Some(42));
    assert_eq!(parse_unsigned_detailed("", 9), Err(IntParseFailure::Empty));
    assert_eq!(parse_unsigned_detailed("+", 9), Err(IntParseFailure::InvalidDigit));
    assert_eq!(parse_unsigned_detailed("99x", 9), Err(IntParseFailure::Overflow));
    assert_eq!(parse_unsigned_detailed("9x", 9), Err(IntParseFailure::InvalidDigit));
    assert_eq!(IntParseFailure::Overflow.as_str(), "number too large to fit in target type");
}

#[test]
fn time_span_arithmetic() {
    let a = TimeSpan::from_millis(2500);
    assert_eq!(a.secs(), 2);
    assert_eq!(a.subsec_nanos(), 500_000_000);
    assert!(TimeSpan::from_secs(2).lt(&a));
    assert_eq!(a.saturating_sub(&TimeSpan::from_secs(3)), TimeSpan::zero());
    assert_eq!(a.saturating_sub(&TimeSpan::from_millis(600)), TimeSpan::from_millis(1900));
    assert_eq!(TimeSpan::from_millis_at_least_one(0), TimeSpan::from_millis(1));
}

#[test]
fn content_type_helpers() {
    assert_eq!(media_type("text/event-stream; charset=utf-8"), "text/event-stream");
    assert!(is_sse("Text/Event-Stream"));
    assert!(is_multipart("multipart/form-data; boundary=x"));
    assert!(has_media_type("application/json", "APPLICATION/JSON"));
    assert!(is_valid_multipart_boundary("abc-123"));
    assert!(!is_valid_multipart_boundary(""));
    assert_eq!(parameter("multipart/form-data; boundary=abc", "boundary").as_deref(), Some("abc"));
    assert_eq!(decode_header_parameter("\"a\\\"b\"").as_deref(), Some("a\"b"));
}

#[test]
fn sensitive_values_are_masked() {
    let mut h = SensitiveHeaders::new();
    h.insert("authorization");
    assert_eq!(mask_header_value("Authorization", "Bearer abcdef", &h), "Be****ef");
    assert_eq!(mask_header_value("authorization", "abcd", &h), "****");
    assert_eq!(mask_header_value("accept", "text/plain", &h), "text/plain");
    assert_eq!(mask_header_value("authorization", "", &h), "****");
    assert_eq!(mask_header_value("accept", "", &h), "");
}

#[test]
fn header_lists_keep_one_entry_per_name() {
    let mut v = Vec::new();
    insert_header(&mut v, "a".to_string(), "1".to_string());
    insert_header(&mut v, "b".to_string(), "2".to_string());
    insert_header(&mut v, "a".to_string(), "3".to_string());
    assert_eq!(v, vec![("a".to_string(), "3".to_string()), ("b".to_string(), "2".to_string())]);
    let built = header_list_from_entries(
        "default_headers",
        &[("Content-Type".to_string(), "text/plain".to_string())],
    )
    .unwrap();
    assert_eq!(built, vec![("content-type".to_string(), "text/plain".to_string())]);
}
