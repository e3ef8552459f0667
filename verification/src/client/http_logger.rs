//! The TRACE lines of a request or response: which lines are written, with
//! the URL, headers and body redacted in one batch of the log redactor.
use vstd::prelude::*;

use crate::options::logging_options::HttpLoggingOptions;
use crate::redact::body_preview::preview_limit;
use crate::redact::log_redactor::{
    item_ok, items_view, log_batch_exhaustion, log_batch_redaction, redact_log_batch, LogItemView, LogRedactionItem,
    LogRedactor,
};
use crate::text::{push_str, texts};

verus! {

/// The shape of a request body, as far as logging is concerned.
#[derive(Debug, Clone, Copy, PartialEq, Eq, Structural)]
pub enum RequestBodyShape {
    /// No body.
    Empty,
    /// An in-memory body (bytes, text, JSON, form, multipart or NDJSON).
    InMemory,
    /// A streamed body, not available for logging.
    Streaming,
}

/// The body line of a request log.
#[derive(Debug, Clone, Copy, PartialEq, Eq, Structural)]
pub enum RequestBodyLog {
    /// No body line (body logging off).
    Omitted,
    /// `Request body: <empty>`.
    Empty,
    /// The redacted preview of the body.
    Preview,
    /// `Request body: <skipped: streaming request body>`.
    Skipped,
}

/// Which body line a request log gets.
pub open spec fn request_body_log_of(log_request_body: bool, shape: RequestBodyShape) -> RequestBodyLog {
    if !log_request_body {
        RequestBodyLog::Omitted
    } else {
        match shape {
            RequestBodyShape::Empty => RequestBodyLog::Empty,
            RequestBodyShape::InMemory => RequestBodyLog::Preview,
            RequestBodyShape::Streaming => RequestBodyLog::Skipped,
        }
    }
}

/// Decides the body line of a request log.
pub fn request_body_log(log_request_body: bool, shape: RequestBodyShape) -> (r: RequestBodyLog)
    ensures
        r == request_body_log_of(log_request_body, shape),
{
    if !log_request_body {
        return RequestBodyLog::Omitted;
    }
    match shape {
        RequestBodyShape::Empty => RequestBodyLog::Empty,
        RequestBodyShape::InMemory => RequestBodyLog::Preview,
        RequestBodyShape::Streaming => RequestBodyLog::Skipped,
    }
}

/// How the response body is available for logging.
#[derive(Debug, Clone, Copy, PartialEq, Eq, Structural)]
pub enum ResponseBodySource {
    /// Already buffered, with its length.
    Buffered(usize),
    /// Not buffered, but small enough to read whole for the log.
    Bufferable,
    /// Streaming or of unknown size.
    Unbufferable,
}

/// The body line of a response log.
#[derive(Debug, Clone, Copy, PartialEq, Eq, Structural)]
pub enum ResponseBodyLog {
    /// No body line (body logging off).
    Omitted,
    /// `Response body: <empty>`.
    Empty,
    /// The redacted preview of the buffered body.
    Preview,
    /// Read the body whole, then log its preview (or `<empty>`).
    ReadThenPreview,
    /// `Response body: <skipped: streaming or unknown-size body>`.
    Skipped,
    /// `Response body: <redaction incomplete>`: the redactor's output budget
    /// was spent before the body.
    RedactionIncomplete,
}

/// Which body line a response log gets.
pub open spec fn response_body_log_of(
    log_response_body: bool,
    output_exhausted: bool,
    source: ResponseBodySource,
) -> ResponseBodyLog {
    if !log_response_body {
        ResponseBodyLog::Omitted
    } else if output_exhausted {
        ResponseBodyLog::RedactionIncomplete
    } else {
        match source {
            ResponseBodySource::Buffered(len) => if len == 0 {
                ResponseBodyLog::Empty
            } else {
                ResponseBodyLog::Preview
            },
            ResponseBodySource::Bufferable => ResponseBodyLog::ReadThenPreview,
            ResponseBodySource::Unbufferable => ResponseBodyLog::Skipped,
        }
    }
}

/// Decides the body line of a response log.
pub fn response_body_log(log_response_body: bool, output_exhausted: bool, source: ResponseBodySource) -> (r:
    ResponseBodyLog)
    ensures
        r == response_body_log_of(log_response_body, output_exhausted, source),
{
    if !log_response_body {
        return ResponseBodyLog::Omitted;
    }
    if output_exhausted {
        return ResponseBodyLog::RedactionIncomplete;
    }
    match source {
        ResponseBodySource::Buffered(len) => {
            if len == 0 {
                ResponseBodyLog::Empty
            } else {
                ResponseBodyLog::Preview
            }
        },
        ResponseBodySource::Bufferable => ResponseBodyLog::ReadThenPreview,
        ResponseBodySource::Unbufferable => ResponseBodyLog::Skipped,
    }
}

/// The first line of a request log: `--> METHOD URL`, with
/// `<unresolved request URL>` when the URL could not be resolved.
pub fn request_head_line(method: &str, redacted_url: Option<&str>) -> (r: String)
    ensures
        r@ == "--> "@ + method@ + " "@ + match redacted_url {
            Some(u) => u@,
            None => "<unresolved request URL>"@,
        },
{
    let mut line = "--> ".to_owned();
    push_str(&mut line, method);
    push_str(&mut line, " ");
    match redacted_url {
        Some(u) => push_str(&mut line, u),
        None => push_str(&mut line, "<unresolved request URL>"),
    }
    line
}

/// The body line of a request log, given the redacted preview when one was
/// produced.
pub fn request_body_line(log: RequestBodyLog, redacted: Option<&str>) -> (r: Option<String>)
    ensures
        match log {
            RequestBodyLog::Omitted => r is None,
            RequestBodyLog::Empty => r matches Some(l) && l@ == "Request body: <empty>"@,
            RequestBodyLog::Skipped => r matches Some(l) && l@
                == "Request body: <skipped: streaming request body>"@,
            RequestBodyLog::Preview => r matches Some(l) && l@ == "Request body: "@ + match redacted {
                Some(t) => t@,
                None => "<redaction incomplete>"@,
            },
        },
{
    match log {
        RequestBodyLog::Omitted => None,
        RequestBodyLog::Empty => Some("Request body: <empty>".to_owned()),
        RequestBodyLog::Skipped => Some("Request body: <skipped: streaming request body>".to_owned()),
        RequestBodyLog::Preview => {
            let mut line = "Request body: ".to_owned();
            match redacted {
                Some(t) => push_str(&mut line, t),
                None => push_str(&mut line, "<redaction incomplete>"),
            }
            Some(line)
        },
    }
}

/// The body line of a response log once the body (if read) is known:
/// `body_empty` says the read body was empty.
pub fn response_body_line(log: ResponseBodyLog, body_empty: bool, redacted: Option<&str>) -> (r: Option<
    String,
>)
    ensures
        match log {
            ResponseBodyLog::Omitted => r is None,
            ResponseBodyLog::Empty => r matches Some(l) && l@ == "Response body: <empty>"@,
            ResponseBodyLog::Skipped => r matches Some(l) && l@
                == "Response body: <skipped: streaming or unknown-size body>"@,
            ResponseBodyLog::RedactionIncomplete => r matches Some(l) && l@
                == "Response body: <redaction incomplete>"@,
            ResponseBodyLog::Preview | ResponseBodyLog::ReadThenPreview => if body_empty {
                r matches Some(l) && l@ == "Response body: <empty>"@
            } else {
                match redacted {
                    Some(t) => r matches Some(l) && l@ == "Response body: "@ + t@,
                    None => r matches Some(l) && l@
                        == "Response body: <skipped: streaming or unknown-size body>"@,
                }
            },
        },
{
    match log {
        ResponseBodyLog::Omitted => None,
        ResponseBodyLog::Empty => Some("Response body: <empty>".to_owned()),
        ResponseBodyLog::Skipped => Some("Response body: <skipped: streaming or unknown-size body>".to_owned()),
        ResponseBodyLog::RedactionIncomplete => Some("Response body: <redaction incomplete>".to_owned()),
        ResponseBodyLog::Preview | ResponseBodyLog::ReadThenPreview => {
            if body_empty {
                Some("Response body: <empty>".to_owned())
            } else {
                match redacted {
                    Some(t) => {
                        let mut line = "Response body: ".to_owned();
                        push_str(&mut line, t);
                        Some(line)
                    },
                    None => Some("Response body: <skipped: streaming or unknown-size body>".to_owned()),
                }
            }
        },
    }
}

/// The first line of a response log: `<-- STATUS URL`, with ` (stream)`
/// for a streamed response.
pub fn response_head_line(status: u16, redacted_url: &str, stream: bool) -> (r: String)
    ensures
        r@ == "<-- "@ + crate::text::decimal_text(status as nat) + " "@ + redacted_url@ + if stream {
            " (stream)"@
        } else {
            Seq::<char>::empty()
        },
{
    let mut line = "<-- ".to_owned();
    crate::text::push_decimal(&mut line, status as u64);
    push_str(&mut line, " ");
    push_str(&mut line, redacted_url);
    if stream {
        push_str(&mut line, " (stream)");
    }
    proof {
        if !stream {
            assert(line@ =~= "<-- "@ + crate::text::decimal_text(status as nat) + " "@ + redacted_url@
                + Seq::<char>::empty());
        }
    }
    line
}

/// The marker of an item whose redaction the batch's output budget cut
/// short.
pub open spec fn redaction_incomplete_marker() -> Seq<char> {
    "<redaction incomplete>"@
}

/// A request body as the logger sees it.
#[derive(Debug)]
pub enum RequestBodyForLog {
    /// No body.
    Empty,
    /// An in-memory body.
    Bytes(Vec<u8>),
    /// A streamed body.
    Streaming,
}

/// The shape of a request body for logging.
pub open spec fn request_body_shape(body: RequestBodyForLog) -> RequestBodyShape {
    match body {
        RequestBodyForLog::Empty => RequestBodyShape::Empty,
        RequestBodyForLog::Bytes(_) => RequestBodyShape::InMemory,
        RequestBodyForLog::Streaming => RequestBodyShape::Streaming,
    }
}

/// The headers as log items see them.
pub open spec fn raw_headers_view(h: Seq<(String, Vec<u8>)>) -> Seq<(Seq<char>, Seq<u8>)> {
    h.map_values(|e: (String, Vec<u8>)| (e.0@, e.1@))
}

/// `seq![x]` when `cond`, else the empty sequence.
pub open spec fn seq_if<A>(cond: bool, x: A) -> Seq<A> {
    if cond {
        seq![x]
    } else {
        seq![]
    }
}

/// The parts of a request redacted for its log, in order: its URL when
/// resolved, its headers when request headers are logged, and its in-memory
/// body (showing at most the body limit, at least one byte) when request
/// bodies are logged.
pub open spec fn request_log_items(
    url: Option<Seq<char>>,
    headers: Seq<(Seq<char>, Seq<u8>)>,
    content_type: Option<Seq<char>>,
    body: RequestBodyForLog,
    o: HttpLoggingOptions,
) -> Seq<LogItemView> {
    seq_if(url is Some, LogItemView::Url(url->0)) + seq_if(
        o.log_request_header,
        LogItemView::Headers(headers),
    ) + match body {
        RequestBodyForLog::Bytes(b) => seq_if(
            o.log_request_body,
            LogItemView::Body(b@, preview_limit(o.body_size_limit), content_type),
        ),
        _ => seq![],
    }
}

/// The TRACE lines of a request, with `t` the redacted texts of
/// [`request_log_items`]: none when logging is off; else `--> METHOD URL`
/// (`<unresolved request URL>` when unresolved), the redacted headers when
/// request headers are logged, and the body line when request bodies are
/// logged (`<empty>`, the redacted preview, or the streaming note).
pub open spec fn request_trace_spec(
    method: Seq<char>,
    url: Option<Seq<char>>,
    body: RequestBodyForLog,
    o: HttpLoggingOptions,
    t: Seq<Seq<char>>,
) -> Seq<Seq<char>> {
    let u: int = if url is Some { 1 } else { 0 };
    let h: int = if o.log_request_header { 1 } else { 0 };
    if !o.enabled {
        seq![]
    } else {
        seq!["--> "@ + method + " "@ + if url is Some { t[0] } else { "<unresolved request URL>"@ }]
            + seq_if(o.log_request_header, t[u]) + if !o.log_request_body {
            seq![]
        } else {
            match body {
                RequestBodyForLog::Empty => seq!["Request body: <empty>"@],
                RequestBodyForLog::Bytes(_) => seq!["Request body: "@ + t[u + h]],
                RequestBodyForLog::Streaming => seq!["Request body: <skipped: streaming request body>"@],
            }
        }
    }
}

/// Every header pair is one the `http` crate accepts, and there are fewer
/// headers than its limit.
pub open spec fn raw_headers_ok(h: Seq<(Seq<char>, Seq<u8>)>) -> bool {
    item_ok(LogItemView::Headers(h))
}

fn copy_headers(h: &[(String, Vec<u8>)]) -> (r: Vec<(String, Vec<u8>)>)
    ensures
        raw_headers_view(r@) == raw_headers_view(h@),
{
    let mut out: Vec<(String, Vec<u8>)> = Vec::new();
    let mut i: usize = 0;
    while i < h.len()
        invariant
            i <= h@.len(),
            raw_headers_view(out@) == raw_headers_view(h@).take(i as int),
        decreases h@.len() - i,
    {
        let ghost before = raw_headers_view(out@);
        let name = h[i].0.clone();
        let value = h[i].1.clone();
        out.push((name, value));
        assert(raw_headers_view(out@) =~= before.push((h@[i as int].0@, h@[i as int].1@)));
        assert(raw_headers_view(h@).take(i + 1) =~= raw_headers_view(h@).take(i as int).push(
            (h@[i as int].0@, h@[i as int].1@),
        ));
        i = i + 1;
    }
    assert(raw_headers_view(h@).take(i as int) =~= raw_headers_view(h@));
    out
}

fn copy_opt(s: Option<&str>) -> (r: Option<String>)
    ensures
        match s {
            Some(x) => r matches Some(y) && y@ == x@,
            None => r is None,
        },
{
    match s {
        Some(x) => Some(x.to_owned()),
        None => None,
    }
}

/// The TRACE lines of a request (see [`request_trace_spec`]), its URL,
/// headers and body redacted in one batch.
pub fn request_trace_lines(
    method: &str,
    url: Option<&str>,
    headers: &[(String, Vec<u8>)],
    content_type: Option<&str>,
    body: &RequestBodyForLog,
    options: &HttpLoggingOptions,
    redactor: &LogRedactor,
) -> (r: Vec<String>)
    requires
        raw_headers_ok(raw_headers_view(headers@)),
    ensures
        texts(r@) == request_trace_spec(
            method@,
            match url {
                Some(u) => Some(u@),
                None => None,
            },
            *body,
            *options,
            log_batch_redaction(
                redactor@,
                request_log_items(
                    match url {
                        Some(u) => Some(u@),
                        None => None,
                    },
                    raw_headers_view(headers@),
                    match content_type {
                        Some(c) => Some(c@),
                        None => None,
                    },
                    *body,
                    *options,
                ),
                redaction_incomplete_marker(),
            ),
        ),
{
    let mut lines: Vec<String> = Vec::new();
    if !options.enabled {
        assert(texts(lines@) =~= seq![]);
        return lines;
    }
    let ghost uv = match url {
        Some(u) => Some(u@),
        None => None::<Seq<char>>,
    };
    let ghost cv = match content_type {
        Some(c) => Some(c@),
        None => None::<Seq<char>>,
    };
    let mut items: Vec<LogRedactionItem> = Vec::new();
    if let Some(u) = url {
        items.push(LogRedactionItem::Url(u.to_owned()));
    }
    let ghost after_url = items_view(items@);
    assert(after_url =~= seq_if(url is Some, LogItemView::Url(uv->0)));
    if options.log_request_header {
        items.push(LogRedactionItem::Headers(copy_headers(headers)));
    }
    let ghost after_headers = items_view(items@);
    assert(after_headers =~= after_url + seq_if(
        options.log_request_header,
        LogItemView::Headers(raw_headers_view(headers@)),
    ));
    match body {
        RequestBodyForLog::Bytes(b) => {
            if options.log_request_body {
                let limit = if options.body_size_limit == 0 { 1 } else { options.body_size_limit };
                items.push(LogRedactionItem::Body { bytes: b.clone(), limit, content_type: copy_opt(content_type) });
            }
        },
        _ => {},
    }
    let ghost items_v = request_log_items(uv, raw_headers_view(headers@), cv, *body, *options);
    assert(items_view(items@) =~= items_v);
    assert forall|i: int| 0 <= i < items@.len() implies item_ok(#[trigger] items@[i]@) by {
        assert(items_view(items@)[i] == items@[i]@);
    }
    let (t, exhausted) = redact_log_batch(redactor, items.as_slice(), "<redaction incomplete>");
    proof {
        reveal_strlit("<redaction incomplete>");
    }
    let ghost tv = texts(t@);
    let u: usize = if url.is_some() { 1 } else { 0 };
    let h: usize = if options.log_request_header { 1 } else { 0 };
    let head = if url.is_some() {
        request_head_line(method, Some(t[0].as_str()))
    } else {
        request_head_line(method, None)
    };
    lines.push(head);
    if options.log_request_header {
        lines.push(t[u].clone());
    }
    let ghost mid = texts(lines@);
    if options.log_request_body {
        let line = match body {
            RequestBodyForLog::Empty => "Request body: <empty>".to_owned(),
            RequestBodyForLog::Bytes(_) => {
                let mut l = "Request body: ".to_owned();
                push_str(&mut l, t[u + h].as_str());
                l
            },
            RequestBodyForLog::Streaming => "Request body: <skipped: streaming request body>".to_owned(),
        };
        lines.push(line);
    }
    assert(texts(lines@) =~= request_trace_spec(method@, uv, *body, *options, tv));
    lines
}

/// A response body as the logger sees it.
#[derive(Debug)]
pub enum ResponseBodyForLog {
    /// The whole body, buffered.
    Buffered(Vec<u8>),
    /// A streaming body or one of unknown size, not read for the log.
    Unbuffered,
}

/// The parts of a response redacted for its log, in order: its URL, its
/// headers when response headers are logged, and its non-empty buffered
/// body (showing at most the body limit, at least one byte) when response
/// bodies are logged.
pub open spec fn response_log_items(
    url: Seq<char>,
    headers: Seq<(Seq<char>, Seq<u8>)>,
    content_type: Option<Seq<char>>,
    body: ResponseBodyForLog,
    o: HttpLoggingOptions,
) -> Seq<LogItemView> {
    seq![LogItemView::Url(url)] + seq_if(o.log_response_header, LogItemView::Headers(headers))
        + match body {
        ResponseBodyForLog::Buffered(b) => seq_if(
            o.log_response_body && b@.len() > 0,
            LogItemView::Body(b@, preview_limit(o.body_size_limit), content_type),
        ),
        _ => seq![],
    }
}

/// The TRACE lines of a response, with `t` the redacted texts of
/// [`response_log_items`] and `ex` whether the batch's output budget was
/// closed after each: none when logging is off; else `<-- STATUS URL`, the
/// redacted headers when response headers are logged, and the body line when
/// response bodies are logged: `<redaction incomplete>` when the budget was
/// closed by the URL and headers, else `<empty>`, the redacted preview, or
/// the note that a streaming or unknown-size body is skipped.
pub open spec fn response_trace_spec(
    status: u16,
    body: ResponseBodyForLog,
    o: HttpLoggingOptions,
    t: Seq<Seq<char>>,
    ex: Seq<bool>,
) -> Seq<Seq<char>> {
    let h: int = if o.log_response_header { 1 } else { 0 };
    if !o.enabled {
        seq![]
    } else {
        seq!["<-- "@ + crate::text::decimal_text(status as nat) + " "@ + t[0]] + seq_if(
            o.log_response_header,
            t[1],
        ) + if !o.log_response_body {
            seq![]
        } else if ex[h] {
            seq!["Response body: <redaction incomplete>"@]
        } else {
            match body {
                ResponseBodyForLog::Buffered(b) => if b@.len() == 0 {
                    seq!["Response body: <empty>"@]
                } else {
                    seq!["Response body: "@ + t[1 + h]]
                },
                ResponseBodyForLog::Unbuffered => seq![
                    "Response body: <skipped: streaming or unknown-size body>"@,
                ],
            }
        }
    }
}

/// The TRACE lines of a response (see [`response_trace_spec`]), its URL,
/// headers and body redacted in one batch.
pub fn response_trace_lines(
    status: u16,
    url: &str,
    headers: &[(String, Vec<u8>)],
    content_type: Option<&str>,
    body: &ResponseBodyForLog,
    options: &HttpLoggingOptions,
    redactor: &LogRedactor,
) -> (r: Vec<String>)
    requires
        raw_headers_ok(raw_headers_view(headers@)),
    ensures
        ({
            let items = response_log_items(
                url@,
                raw_headers_view(headers@),
                match content_type {
                    Some(c) => Some(c@),
                    None => None,
                },
                *body,
                *options,
            );
            texts(r@) == response_trace_spec(
                status,
                *body,
                *options,
                log_batch_redaction(redactor@, items, redaction_incomplete_marker()),
                log_batch_exhaustion(redactor@, items),
            )
        }),
{
    let mut lines: Vec<String> = Vec::new();
    if !options.enabled {
        assert(texts(lines@) =~= seq![]);
        return lines;
    }
    let ghost cv = match content_type {
        Some(c) => Some(c@),
        None => None::<Seq<char>>,
    };
    let mut items: Vec<LogRedactionItem> = Vec::new();
    items.push(LogRedactionItem::Url(url.to_owned()));
    let ghost after_url = items_view(items@);
    assert(after_url =~= seq![LogItemView::Url(url@)]);
    if options.log_response_header {
        items.push(LogRedactionItem::Headers(copy_headers(headers)));
    }
    let ghost after_headers = items_view(items@);
    assert(after_headers =~= after_url + seq_if(
        options.log_response_header,
        LogItemView::Headers(raw_headers_view(headers@)),
    ));
    match body {
        ResponseBodyForLog::Buffered(b) => {
            if options.log_response_body && b.len() > 0 {
                let limit = if options.body_size_limit == 0 { 1 } else { options.body_size_limit };
                items.push(LogRedactionItem::Body { bytes: b.clone(), limit, content_type: copy_opt(content_type) });
            }
        },
        _ => {},
    }
    let ghost items_v = response_log_items(url@, raw_headers_view(headers@), cv, *body, *options);
    assert(items_view(items@) =~= items_v);
    assert forall|i: int| 0 <= i < items@.len() implies item_ok(#[trigger] items@[i]@) by {
        assert(items_view(items@)[i] == items@[i]@);
    }
    let (t, exhausted) = redact_log_batch(redactor, items.as_slice(), "<redaction incomplete>");
    proof {
        reveal_strlit("<redaction incomplete>");
    }
    let ghost tv = texts(t@);
    let h: usize = if options.log_response_header { 1 } else { 0 };
    lines.push(response_head_line(status, t[0].as_str(), false));
    proof {
        assert(lines@[0]@ =~= "<-- "@ + crate::text::decimal_text(status as nat) + " "@ + tv[0]);
    }
    if options.log_response_header {
        lines.push(t[1].clone());
    }
    if options.log_response_body {
        let line = if exhausted[h] {
            "Response body: <redaction incomplete>".to_owned()
        } else {
            match body {
            ResponseBodyForLog::Buffered(b) => {
                if b.len() == 0 {
                    "Response body: <empty>".to_owned()
                } else {
                    let mut l = "Response body: ".to_owned();
                    push_str(&mut l, t[1 + h].as_str());
                    l
                }
            },
            ResponseBodyForLog::Unbuffered => "Response body: <skipped: streaming or unknown-size body>".to_owned(),
            }
        };
        lines.push(line);
    }
    assert(texts(lines@) =~= response_trace_spec(status, *body, *options, tv, exhausted@));
    lines
}

/// The parts of a streamed response redacted for its head log: its URL and,
/// when response headers are logged, its headers.
pub open spec fn stream_log_items(url: Seq<char>, headers: Seq<(Seq<char>, Seq<u8>)>, o: HttpLoggingOptions) -> Seq<
    LogItemView,
> {
    seq![LogItemView::Url(url)] + seq_if(o.log_response_header, LogItemView::Headers(headers))
}

/// The TRACE lines of a streamed response's head, with `t` the redacted
/// texts of [`stream_log_items`]: none when logging is off; else
/// `<-- STATUS URL (stream)` and the redacted headers when response headers
/// are logged.
pub open spec fn stream_trace_spec(status: u16, o: HttpLoggingOptions, t: Seq<Seq<char>>) -> Seq<Seq<char>> {
    if !o.enabled {
        seq![]
    } else {
        seq!["<-- "@ + crate::text::decimal_text(status as nat) + " "@ + t[0] + " (stream)"@] + seq_if(
            o.log_response_header,
            t[1],
        )
    }
}

/// The TRACE lines of a streamed response's head (see
/// [`stream_trace_spec`]), its URL and headers redacted in one batch.
pub fn stream_trace_lines(
    status: u16,
    url: &str,
    headers: &[(String, Vec<u8>)],
    options: &HttpLoggingOptions,
    redactor: &LogRedactor,
) -> (r: Vec<String>)
    requires
        raw_headers_ok(raw_headers_view(headers@)),
    ensures
        texts(r@) == stream_trace_spec(
            status,
            *options,
            log_batch_redaction(
                redactor@,
                stream_log_items(url@, raw_headers_view(headers@), *options),
                redaction_incomplete_marker(),
            ),
        ),
{
    let mut lines: Vec<String> = Vec::new();
    if !options.enabled {
        assert(texts(lines@) =~= seq![]);
        return lines;
    }
    let mut items: Vec<LogRedactionItem> = Vec::new();
    items.push(LogRedactionItem::Url(url.to_owned()));
    let ghost after_url = items_view(items@);
    assert(after_url =~= seq![LogItemView::Url(url@)]);
    if options.log_response_header {
        items.push(LogRedactionItem::Headers(copy_headers(headers)));
    }
    assert(items_view(items@) =~= stream_log_items(url@, raw_headers_view(headers@), *options));
    assert forall|i: int| 0 <= i < items@.len() implies item_ok(#[trigger] items@[i]@) by {
        assert(items_view(items@)[i] == items@[i]@);
    }
    let (t, exhausted) = redact_log_batch(redactor, items.as_slice(), "<redaction incomplete>");
    proof {
        reveal_strlit("<redaction incomplete>");
    }
    let ghost tv = texts(t@);
    lines.push(response_head_line(status, t[0].as_str(), true));
    if options.log_response_header {
        lines.push(t[1].clone());
    }
    assert(texts(lines@) =~= stream_trace_spec(status, *options, tv));
    lines
}

} // verus!
