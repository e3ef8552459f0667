//! The TRACE lines logged for a request, a response and the head of a
//! streamed response, with the URL redacted and sensitive header values
//! masked.
use vstd::prelude::*;

use super::masker::{mask_header_value, masked_value};
use crate::error::body_preview::{log_body_text, render_body};
use crate::options::logging_options::HttpLoggingOptions;
use crate::options::http_client_options::RedactionRules;
use crate::options::sensitive_headers::SensitiveHeaders;
use crate::redact::log_redactor::{http_url_redaction, redact_http_url, LogRedactor};
use crate::text::{decimal_text, push_decimal, push_str};

verus! {

/// A header as logged: its name, and its value when the value is text.
pub type LoggedHeaders = Seq<(Seq<char>, Option<Seq<char>>)>;

/// The view of a header list whose values may not be text.
pub open spec fn logged_headers_view(v: Seq<(String, Option<String>)>) -> LoggedHeaders {
    v.map_values(
        |h: (String, Option<String>)|
            (
                h.0@,
                match h.1 {
                    Some(s) => Some(s@),
                    None => None,
                },
            ),
    )
}

/// `name: value`, the value masked when the header is sensitive and shown as
/// `<non-utf8>` when it is not text.
pub open spec fn header_log_line(name: Seq<char>, value: Option<Seq<char>>, sensitive: Set<Seq<char>>) -> Seq<
    char,
> {
    name + ": "@ + masked_value(
        name,
        match value {
            Some(v) => v,
            None => "<non-utf8>"@,
        },
        sensitive,
    )
}

/// One line per header, in order.
pub open spec fn header_log_lines(hs: LoggedHeaders, sensitive: Set<Seq<char>>) -> Seq<Seq<char>> {
    hs.map_values(|h: (Seq<char>, Option<Seq<char>>)| header_log_line(h.0, h.1, sensitive))
}

/// The header lines when `enabled`, else none.
pub open spec fn header_lines_if(enabled: bool, hs: LoggedHeaders, sensitive: Set<Seq<char>>) -> Seq<
    Seq<char>,
> {
    if enabled {
        header_log_lines(hs, sensitive)
    } else {
        seq![]
    }
}

/// The lines logged for a request: none when logging is off; else
/// `--> METHOD URL` (the URL redacted under `rules`), the header lines when request headers are logged, and
/// `Request body: ...` when request bodies are logged.
pub open spec fn request_log_lines(
    method: Seq<char>,
    url: Seq<char>,
    hs: LoggedHeaders,
    body: Option<Seq<u8>>,
    options: HttpLoggingOptions,
    sensitive: Set<Seq<char>>,
    rules: RedactionRules,
) -> Seq<Seq<char>> {
    if !options.enabled {
        seq![]
    } else {
        seq!["--> "@ + method + " "@ + http_url_redaction(rules, url)] + header_lines_if(options.log_request_header, hs, sensitive)
            + if options.log_request_body {
            seq![
                "Request body: "@ + match body {
                    Some(b) => log_body_text(b, options.body_size_limit as nat),
                    None => "<empty>"@,
                },
            ]
        } else {
            seq![]
        }
    }
}

/// The lines logged for a response: none when logging is off; else
/// `<-- STATUS URL` (the URL redacted under `rules`), the header lines when response headers are logged, and
/// `Response body: ...` when response bodies are logged.
pub open spec fn response_log_lines(
    status: u16,
    url: Seq<char>,
    hs: LoggedHeaders,
    body: Seq<u8>,
    options: HttpLoggingOptions,
    sensitive: Set<Seq<char>>,
    rules: RedactionRules,
) -> Seq<Seq<char>> {
    if !options.enabled {
        seq![]
    } else {
        seq!["<-- "@ + decimal_text(status as nat) + " "@ + http_url_redaction(rules, url)] + header_lines_if(
            options.log_response_header,
            hs,
            sensitive,
        ) + if options.log_response_body {
            seq!["Response body: "@ + log_body_text(body, options.body_size_limit as nat)]
        } else {
            seq![]
        }
    }
}

/// The lines logged for the head of a streamed response: none when logging
/// is off; else `<-- STATUS URL (stream)` (the URL redacted under `rules`) and the header lines when response
/// headers are logged.
pub open spec fn stream_head_log_lines(
    status: u16,
    url: Seq<char>,
    hs: LoggedHeaders,
    options: HttpLoggingOptions,
    sensitive: Set<Seq<char>>,
    rules: RedactionRules,
) -> Seq<Seq<char>> {
    if !options.enabled {
        seq![]
    } else {
        seq!["<-- "@ + decimal_text(status as nat) + " "@ + http_url_redaction(rules, url) + " (stream)"@] + header_lines_if(
            options.log_response_header,
            hs,
            sensitive,
        )
    }
}

/// Appends one line per header to `lines`.
fn push_header_lines(
    lines: &mut Vec<String>,
    headers: &[(String, Option<String>)],
    sensitive_headers: &SensitiveHeaders,
)
    ensures
        texts_of(final(lines)@) == texts_of(old(lines)@) + header_log_lines(
            logged_headers_view(headers@),
            sensitive_headers@,
        ),
{
    let ghost start = texts_of(lines@);
    let ghost hs = logged_headers_view(headers@);
    let mut i: usize = 0;
    while i < headers.len()
        invariant
            i <= headers@.len(),
            hs == logged_headers_view(headers@),
            hs.len() == headers@.len(),
            texts_of(lines@) == start + header_log_lines(hs.take(i as int), sensitive_headers@),
        decreases headers@.len() - i,
    {
        let name = headers[i].0.as_str();
        let value = match &headers[i].1 {
            Some(v) => v.as_str(),
            None => "<non-utf8>",
        };
        let mut line = name.to_owned();
        push_str(&mut line, ": ");
        let masked = mask_header_value(name, value, sensitive_headers);
        push_str(&mut line, masked.as_str());
        let ghost before = texts_of(lines@);
        let ghost lv = line@;
        lines.push(line);
        proof {
            assert(texts_of(lines@) =~= before.push(lv));
            assert(hs[i as int] == (headers@[i as int].0@, match headers@[i as int].1 {
                Some(s) => Some(s@),
                None => None::<Seq<char>>,
            }));
            assert(header_log_lines(hs.take(i + 1), sensitive_headers@) =~= header_log_lines(
                hs.take(i as int),
                sensitive_headers@,
            ).push(header_log_line(hs[i as int].0, hs[i as int].1, sensitive_headers@)));
        }
        i = i + 1;
    }
    assert(hs.take(i as int) =~= hs);
}

/// The texts of a list of strings.
pub open spec fn texts_of(v: Seq<String>) -> Seq<Seq<char>> {
    v.map_values(|s: String| s@)
}

/// The lines to log for a request (see [`request_log_lines`]).
pub fn log_request(
    method: &str,
    url: &str,
    headers: &[(String, Option<String>)],
    body: Option<&[u8]>,
    options: &HttpLoggingOptions,
    sensitive_headers: &SensitiveHeaders,
    redactor: &LogRedactor,
) -> (r: Vec<String>)
    ensures
        texts_of(r@) == request_log_lines(
            method@,
            url@,
            logged_headers_view(headers@),
            match body {
                Some(b) => Some(b@),
                None => None,
            },
            *options,
            sensitive_headers@,
            redactor@,
        ),
{
    let mut lines: Vec<String> = Vec::new();
    if !options.enabled {
        assert(texts_of(lines@) =~= seq![]);
        return lines;
    }
    let mut head = "--> ".to_owned();
    push_str(&mut head, method);
    push_str(&mut head, " ");
    let red = redact_http_url(redactor, url);
    push_str(&mut head, red.as_str());
    let ghost hv = head@;
    lines.push(head);
    assert(texts_of(lines@) =~= seq![hv]);
    if options.log_request_header {
        push_header_lines(&mut lines, headers, sensitive_headers);
    }
    let ghost mid = texts_of(lines@);
    if options.log_request_body {
        let mut line = "Request body: ".to_owned();
        match body {
            Some(b) => {
                let rendered = render_body(b, options.body_size_limit);
                push_str(&mut line, rendered.as_str());
            },
            None => push_str(&mut line, "<empty>"),
        }
        let ghost lv = line@;
        lines.push(line);
        assert(texts_of(lines@) =~= mid.push(lv));
    }
    let ghost hs = logged_headers_view(headers@);
    assert(texts_of(lines@) =~= request_log_lines(
        method@,
        url@,
        hs,
        match body {
            Some(b) => Some(b@),
            None => None,
        },
        *options,
        sensitive_headers@,
        redactor@,
    ));
    lines
}

/// The lines to log for a response (see [`response_log_lines`]).
pub fn log_response(
    status: u16,
    url: &str,
    headers: &[(String, Option<String>)],
    body: &[u8],
    options: &HttpLoggingOptions,
    sensitive_headers: &SensitiveHeaders,
    redactor: &LogRedactor,
) -> (r: Vec<String>)
    ensures
        texts_of(r@) == response_log_lines(
            status,
            url@,
            logged_headers_view(headers@),
            body@,
            *options,
            sensitive_headers@,
            redactor@,
        ),
{
    let mut lines: Vec<String> = Vec::new();
    if !options.enabled {
        assert(texts_of(lines@) =~= seq![]);
        return lines;
    }
    let mut head = "<-- ".to_owned();
    push_decimal(&mut head, status as u64);
    push_str(&mut head, " ");
    let red = redact_http_url(redactor, url);
    push_str(&mut head, red.as_str());
    let ghost hv = head@;
    lines.push(head);
    assert(texts_of(lines@) =~= seq![hv]);
    if options.log_response_header {
        push_header_lines(&mut lines, headers, sensitive_headers);
    }
    let ghost mid = texts_of(lines@);
    if options.log_response_body {
        let mut line = "Response body: ".to_owned();
        let rendered = render_body(body, options.body_size_limit);
        push_str(&mut line, rendered.as_str());
        let ghost lv = line@;
        lines.push(line);
        assert(texts_of(lines@) =~= mid.push(lv));
    }
    let ghost hs = logged_headers_view(headers@);
    assert(texts_of(lines@) =~= response_log_lines(
        status,
        url@,
        hs,
        body@,
        *options,
        sensitive_headers@,
        redactor@,
    ));
    lines
}

/// The lines to log for the head of a streamed response (see
/// [`stream_head_log_lines`]).
pub fn log_stream_response_headers(
    status: u16,
    url: &str,
    headers: &[(String, Option<String>)],
    options: &HttpLoggingOptions,
    sensitive_headers: &SensitiveHeaders,
    redactor: &LogRedactor,
) -> (r: Vec<String>)
    ensures
        texts_of(r@) == stream_head_log_lines(
            status,
            url@,
            logged_headers_view(headers@),
            *options,
            sensitive_headers@,
            redactor@,
        ),
{
    let mut lines: Vec<String> = Vec::new();
    if !options.enabled {
        assert(texts_of(lines@) =~= seq![]);
        return lines;
    }
    let mut head = "<-- ".to_owned();
    push_decimal(&mut head, status as u64);
    push_str(&mut head, " ");
    let red = redact_http_url(redactor, url);
    push_str(&mut head, red.as_str());
    push_str(&mut head, " (stream)");
    let ghost hv = head@;
    lines.push(head);
    assert(texts_of(lines@) =~= seq![hv]);
    if options.log_response_header {
        push_header_lines(&mut lines, headers, sensitive_headers);
    }
    let ghost hs = logged_headers_view(headers@);
    assert(texts_of(lines@) =~= stream_head_log_lines(status, url@, hs, *options, sensitive_headers@, redactor@));
    lines
}

/// The response lines follow the response switches alone: options that
/// agree on the master switch, the response header and body switches and the
/// body limit give the same lines, whatever their request switches. When
/// logging is on there is one status line, one line per header when
/// response headers are logged and one body line when response bodies are
/// logged, the last line then being `Response body: ` and the rendered body.
pub proof fn law_response_lines_follow_response_switches(
    status: u16,
    url: Seq<char>,
    hs: LoggedHeaders,
    body: Seq<u8>,
    options: HttpLoggingOptions,
    other: HttpLoggingOptions,
    sensitive: Set<Seq<char>>,
    rules: RedactionRules,
)
    requires
        other.enabled == options.enabled,
        other.log_response_header == options.log_response_header,
        other.log_response_body == options.log_response_body,
        other.body_size_limit == options.body_size_limit,
    ensures
        response_log_lines(status, url, hs, body, other, sensitive, rules) == response_log_lines(
            status,
            url,
            hs,
            body,
            options,
            sensitive,
            rules,
        ),
        response_log_lines(status, url, hs, body, options, sensitive, rules).len() == if !options.enabled {
            0
        } else {
            1 + (if options.log_response_header {
                hs.len() as int
            } else {
                0
            }) + (if options.log_response_body {
                1int
            } else {
                0
            })
        },
        options.enabled && options.log_response_body ==> response_log_lines(
            status,
            url,
            hs,
            body,
            options,
            sensitive,
            rules,
        ).last() == "Response body: "@ + log_body_text(body, options.body_size_limit as nat),
{
}

/// The request lines follow the request switches alone: options that agree
/// on the master switch, the request header and body switches and the body
/// limit give the same lines, whatever their response switches. When
/// logging is on there is one request line, one line per header when
/// request headers are logged and one body line when request bodies are
/// logged.
pub proof fn law_request_lines_follow_request_switches(
    method: Seq<char>,
    url: Seq<char>,
    hs: LoggedHeaders,
    body: Option<Seq<u8>>,
    options: HttpLoggingOptions,
    other: HttpLoggingOptions,
    sensitive: Set<Seq<char>>,
    rules: RedactionRules,
)
    requires
        other.enabled == options.enabled,
        other.log_request_header == options.log_request_header,
        other.log_request_body == options.log_request_body,
        other.body_size_limit == options.body_size_limit,
    ensures
        request_log_lines(method, url, hs, body, other, sensitive, rules) == request_log_lines(
            method,
            url,
            hs,
            body,
            options,
            sensitive,
            rules,
        ),
        request_log_lines(method, url, hs, body, options, sensitive, rules).len() == if !options.enabled {
            0
        } else {
            1 + (if options.log_request_header {
                hs.len() as int
            } else {
                0
            }) + (if options.log_request_body {
                1int
            } else {
                0
            })
        },
{
}

/// The head of a streamed response logs no body line: when logging is on
/// there is the status line and, when response headers are logged, one line
/// per header, whatever the body switches.
pub proof fn law_stream_head_lines(
    status: u16,
    url: Seq<char>,
    hs: LoggedHeaders,
    options: HttpLoggingOptions,
    sensitive: Set<Seq<char>>,
    rules: RedactionRules,
)
    ensures
        stream_head_log_lines(status, url, hs, options, sensitive, rules).len() == if !options.enabled {
            0
        } else {
            1 + if options.log_response_header {
                hs.len() as int
            } else {
                0
            }
        },
{
}

} // verus!
