//! The log redactor: a `qubit_redact` redactor built from the configured
//! redaction settings, redacting URLs, headers and bodies for TRACE logs and
//! the URLs embedded in diagnostic text.
use http::{HeaderName, HeaderValue};
use qubit_redact::formats::http::BodyCapture;
use vstd::prelude::*;

use crate::options::http_client_options::{
    parse_url, url_parse_outcome, LogRedactionSettings, RedactionRules, UrlPathRendering,
};
use super::redacted_debugger::{law_url_spans_ordered, url_spans, url_spans_from};
use crate::text::{push_str, texts};

verus! {

#[verifier::external_type_specification]
#[verifier::external_body]
pub struct ExRedactor(qubit_redact::Redactor);

#[verifier::external_type_specification]
#[verifier::external_body]
pub struct ExHttpPolicyBuilderView<'a>(qubit_redact::HttpPolicyBuilderView<'a>);

/// Calls `HttpPolicyBuilderView::url_path` with the matching
/// `UrlPathPolicy`.
#[verifier::external_body]
fn set_url_path(view: &mut qubit_redact::HttpPolicyBuilderView<'_>, rendering: UrlPathRendering) {
    view.url_path(
        match rendering {
            UrlPathRendering::Redact => qubit_redact::formats::http::UrlPathPolicy::Redact,
            UrlPathRendering::Preserve => qubit_redact::formats::http::UrlPathPolicy::Preserve,
        },
    );
}

/// Calls `header().raise(name, Sensitivity::High)`; a refusal is kept by
/// the builder and reported when the policy is built.
#[verifier::external_body]
fn raise_header(view: &mut qubit_redact::HttpPolicyBuilderView<'_>, name: &str) {
    let _ = view.header().raise(name, qubit_redact::Sensitivity::High);
}

/// Calls `query().raise(name, Sensitivity::High)`; a refusal is kept by the
/// builder and reported when the policy is built.
#[verifier::external_body]
fn raise_query(view: &mut qubit_redact::HttpPolicyBuilderView<'_>, name: &str) {
    let _ = view.query().raise(name, qubit_redact::Sensitivity::High);
}

/// Calls `body().raise(name, Sensitivity::High)`; a refusal is kept by the
/// builder and reported when the policy is built.
#[verifier::external_body]
fn raise_body(view: &mut qubit_redact::HttpPolicyBuilderView<'_>, name: &str) {
    let _ = view.body().raise(name, qubit_redact::Sensitivity::High);
}

/// Calls `header().allow_exact(name)`; a refusal is kept by the builder and
/// reported when the policy is built.
#[verifier::external_body]
fn allow_header(view: &mut qubit_redact::HttpPolicyBuilderView<'_>, name: &str) {
    let _ = view.header().allow_exact(name);
}

/// Calls `query().allow_exact(name)`; a refusal is kept by the builder and
/// reported when the policy is built.
#[verifier::external_body]
fn allow_query(view: &mut qubit_redact::HttpPolicyBuilderView<'_>, name: &str) {
    let _ = view.query().allow_exact(name);
}

/// Calls `body().allow_exact(name)`; a refusal is kept by the builder and
/// reported when the policy is built.
#[verifier::external_body]
fn allow_body(view: &mut qubit_redact::HttpPolicyBuilderView<'_>, name: &str) {
    let _ = view.body().allow_exact(name);
}

/// Applies the settings to the HTTP part of a policy builder: the path
/// rendering when configured, then each raised header, query and body name,
/// then each allowed header, query and body name, in order.
pub fn configure_redaction_view(
    view: &mut qubit_redact::HttpPolicyBuilderView<'_>,
    settings: &LogRedactionSettings,
) {
    if let Some(rendering) = settings.url_path_policy {
        set_url_path(view, rendering);
    }
    let mut i: usize = 0;
    while i < settings.sensitive_headers.len()
        decreases settings.sensitive_headers@.len() - i,
    {
        raise_header(view, settings.sensitive_headers[i].as_str());
        i = i + 1;
    }
    let mut i: usize = 0;
    while i < settings.sensitive_query_params.len()
        decreases settings.sensitive_query_params@.len() - i,
    {
        raise_query(view, settings.sensitive_query_params[i].as_str());
        i = i + 1;
    }
    let mut i: usize = 0;
    while i < settings.sensitive_body_fields.len()
        decreases settings.sensitive_body_fields@.len() - i,
    {
        raise_body(view, settings.sensitive_body_fields[i].as_str());
        i = i + 1;
    }
    let mut i: usize = 0;
    while i < settings.excluded_sensitive_headers.len()
        decreases settings.excluded_sensitive_headers@.len() - i,
    {
        allow_header(view, settings.excluded_sensitive_headers[i].as_str());
        i = i + 1;
    }
    let mut i: usize = 0;
    while i < settings.excluded_sensitive_query_params.len()
        decreases settings.excluded_sensitive_query_params@.len() - i,
    {
        allow_query(view, settings.excluded_sensitive_query_params[i].as_str());
        i = i + 1;
    }
    let mut i: usize = 0;
    while i < settings.excluded_sensitive_body_fields.len()
        decreases settings.excluded_sensitive_body_fields@.len() - i,
    {
        allow_body(view, settings.excluded_sensitive_body_fields[i].as_str());
        i = i + 1;
    }
}

/// A redactor together with the settings it was built from.
pub struct LogRedactor {
    redactor: qubit_redact::Redactor,
    settings: LogRedactionSettings,
}

impl View for LogRedactor {
    type V = RedactionRules;

    closed spec fn view(&self) -> RedactionRules {
        self.settings@
    }
}

/// Names what building a `qubit_redact` policy from the rules reports: `None`
/// when it is built, else the display text of the policy error.
pub uninterp spec fn redaction_rules_rejection(rules: RedactionRules) -> Option<Seq<char>>;

/// Calls `RedactionPolicy::builder().http(..)` with
/// [`configure_redaction_view`], then `build` and `Redactor::new`; on failure
/// hands back the policy error's display text.
#[verifier::external_body]
fn build_redactor(settings: LogRedactionSettings) -> (r: Result<LogRedactor, String>)
    ensures
        match r {
            Ok(x) => redaction_rules_rejection(settings@) is None && x@ == settings@,
            Err(m) => redaction_rules_rejection(settings@) == Some(m@),
        },
{
    let built = qubit_redact::RedactionPolicy::builder()
        .http(|view| configure_redaction_view(view, &settings))
        .and_then(|builder| builder.build());
    match built {
        Ok(policy) => Ok(LogRedactor { redactor: qubit_redact::Redactor::new(policy), settings }),
        Err(error) => Err(error.to_string()),
    }
}

impl LogRedactor {
    /// Builds the redactor of the settings; a name that `qubit_redact`
    /// refuses makes it fail with the policy error's text.
    pub fn new(settings: &LogRedactionSettings) -> (r: Result<LogRedactor, String>)
        ensures
            match r {
                Ok(x) => redaction_rules_rejection(settings@) is None && x@ == settings@,
                Err(m) => redaction_rules_rejection(settings@) == Some(m@),
            },
    {
        build_redactor(settings.duplicate())
    }

    /// The settings the redactor was built from.
    pub fn settings(&self) -> (r: &LogRedactionSettings)
        ensures
            r@ == self@,
    {
        &self.settings
    }
}

/// Names the text `Redactor::redact_http_url` gives for a URL under the
/// redactor built from the rules.
pub uninterp spec fn http_url_redaction(rules: RedactionRules, url: Seq<char>) -> Seq<char>;

/// Calls `Redactor::redact_http_url` and hands back its text.
#[verifier::external_body]
pub fn redact_http_url(redactor: &LogRedactor, url: &str) -> (r: String)
    ensures
        r@ == http_url_redaction(redactor@, url@),
{
    redactor.redactor.redact_http_url(url).text().as_str().to_owned()
}

/// One part of a request or response to redact in a log batch.
#[derive(Debug)]
pub enum LogRedactionItem {
    /// A URL.
    Url(String),
    /// Header names with their raw value bytes.
    Headers(Vec<(String, Vec<u8>)>),
    /// A body, of which at most `limit` leading bytes are shown, with its
    /// Content-Type text when known.
    Body { bytes: Vec<u8>, limit: usize, content_type: Option<String> },
}

/// The view of a log batch item.
pub enum LogItemView {
    /// A URL.
    Url(Seq<char>),
    /// Header names with their raw value bytes.
    Headers(Seq<(Seq<char>, Seq<u8>)>),
    /// A body, its shown-prefix limit and its Content-Type.
    Body(Seq<u8>, usize, Option<Seq<char>>),
}

impl View for LogRedactionItem {
    type V = LogItemView;

    open spec fn view(&self) -> LogItemView {
        match self {
            LogRedactionItem::Url(u) => LogItemView::Url(u@),
            LogRedactionItem::Headers(h) => LogItemView::Headers(
                h@.map_values(|e: (String, Vec<u8>)| (e.0@, e.1@)),
            ),
            LogRedactionItem::Body { bytes, limit, content_type } => LogItemView::Body(
                bytes@,
                *limit,
                match content_type {
                    Some(c) => Some(c@),
                    None => None,
                },
            ),
        }
    }
}

/// A byte allowed in a header value: anything but control bytes other than
/// horizontal tab.
pub open spec fn header_byte_ok(b: u8) -> bool {
    (b >= 32 && b != 127) || b == 9
}

/// Each header of an item has a name and value bytes the `http` crate
/// accepts, and there are fewer than the `http` crate's limit of headers.
pub open spec fn item_ok(item: LogItemView) -> bool {
    match item {
        LogItemView::Headers(h) => h.len() < 16384 && forall|i: int|
            0 <= i < h.len() ==> crate::header::header_name_ok(#[trigger] h[i].0) && forall|j: int|
                0 <= j < h[i].1.len() ==> header_byte_ok(h[i].1[j]),
        _ => true,
    }
}

/// The views of a list of items.
pub open spec fn items_view(items: Seq<LogRedactionItem>) -> Seq<LogItemView> {
    items.map_values(|i: LogRedactionItem| i@)
}

/// Names the texts a `qubit_redact` diagnostic batch of the redactor built
/// from the rules gives for the items, in order, with `marker` for an item
/// whose redaction the batch's output budget cut short.
pub uninterp spec fn log_batch_redaction(
    rules: RedactionRules,
    items: Seq<LogItemView>,
    marker: Seq<char>,
) -> Seq<Seq<char>>;

/// Names whether the shared output budget of a `qubit_redact` diagnostic
/// batch of the redactor built from the rules is closed after each of the
/// items, in order.
pub uninterp spec fn log_batch_exhaustion(rules: RedactionRules, items: Seq<LogItemView>) -> Seq<bool>;

/// Redacts the items in one `Redactor::diagnostic_batch` (URLs by
/// `redact_http_url`, headers by `redact_http_headers` on the `HeaderMap`
/// of the pairs, bodies by `redact_http_body_with_content_type_text` on
/// `BodyCapture::prefix`), noting `is_output_exhausted` after each item,
/// finishes it with `finish_with_marker(marker)` and hands back each item's
/// text and whether the output budget was closed after it; one of each per
/// item.
#[verifier::external_body]
pub fn redact_log_batch(redactor: &LogRedactor, items: &[LogRedactionItem], marker: &str) -> (r: (
    Vec<String>,
    Vec<bool>,
))
    requires
        forall|i: int| 0 <= i < items@.len() ==> item_ok(#[trigger] items@[i]@),
    ensures
        texts(r.0@) == log_batch_redaction(redactor@, items_view(items@), marker@),
        r.0@.len() == items@.len(),
        r.1@ == log_batch_exhaustion(redactor@, items_view(items@)),
        r.1@.len() == items@.len(),
{
    let mut batch = redactor.redactor.diagnostic_batch();
    let (handles, exhausted): (Vec<_>, _) = items.iter().map(|item| (match item {
        LogRedactionItem::Url(u) => batch.redact_http_url(u),
        LogRedactionItem::Headers(h) => batch.redact_http_headers(&h.iter().map(|(n, v)|
            (HeaderName::try_from(n).unwrap(), HeaderValue::from_bytes(v).unwrap())).collect()),
        LogRedactionItem::Body { bytes, limit, content_type } =>
            batch.redact_http_body_with_content_type_text(BodyCapture::prefix(bytes, *limit), content_type.as_deref()),
    }, batch.is_output_exhausted())).unzip();
    let output = batch.finish_with_marker(marker);
    (handles.into_iter().map(|h| output.text(h).to_string()).collect(), exhausted)
}

/// What a URL found in diagnostic text becomes: its redaction when it
/// parses as a URL (redacted in its parsed serialization), else
/// `<redacted: invalid URL>`.
pub open spec fn url_replacement(rules: RedactionRules, candidate: Seq<char>) -> Seq<char> {
    match url_parse_outcome(candidate) {
        Ok(u) => http_url_redaction(rules, u),
        Err(_) => "<redacted: invalid URL>"@,
    }
}

/// `s` from `cursor` on with each span of `spans` replaced (see
/// [`url_replacement`]).
pub open spec fn urls_redacted(s: Seq<char>, spans: Seq<(int, int)>, cursor: int, rules: RedactionRules) -> Seq<
    char,
>
    decreases spans.len(),
{
    if spans.len() == 0 {
        s.subrange(cursor, s.len() as int)
    } else {
        s.subrange(cursor, spans[0].0) + url_replacement(rules, s.subrange(spans[0].0, spans[0].1))
            + urls_redacted(s, spans.drop_first(), spans[0].1, rules)
    }
}

/// Replaces every URL found in diagnostic text (see
/// `redacted_debugger::url_spans`) by its redaction, or by
/// `<redacted: invalid URL>` when it does not parse.
pub fn urls_in_text(text: &str, redactor: &LogRedactor) -> (r: String)
    ensures
        r@ == urls_redacted(text@, url_spans_from(text@, 0), 0, redactor@),
{
    let spans = url_spans(text);
    let ghost s = text@;
    let ghost sp = url_spans_from(s, 0);
    proof {
        law_url_spans_ordered(s, 0);
        assert(spans@.len() == sp.len());
        assert forall|i: int| 0 <= i < sp.len() implies #[trigger] sp[i] == (
            spans@[i].0 as int,
            spans@[i].1 as int,
        ) by {
            assert(spans@.map_values(|p: (usize, usize)| (p.0 as int, p.1 as int))[i] == sp[i]);
        }
    }
    let n = text.unicode_len();
    let mut out = String::new();
    let mut cursor: usize = 0;
    let mut k: usize = 0;
    assert(sp.skip(0) =~= sp);
    assert(out@ + urls_redacted(s, sp.skip(0), 0, redactor@) =~= urls_redacted(s, sp, 0, redactor@));
    while k < spans.len()
        invariant
            s == text@,
            n == s.len(),
            sp == url_spans_from(s, 0),
            spans@.len() == sp.len(),
            forall|i: int| 0 <= i < sp.len() ==> #[trigger] sp[i] == (spans@[i].0 as int, spans@[i].1 as int),
            forall|i: int| 0 <= i < sp.len() ==> 0 <= (#[trigger] sp[i]).0 < sp[i].1 <= s.len(),
            forall|i: int| 0 <= i < sp.len() - 1 ==> (#[trigger] sp[i]).1 <= sp[i + 1].0,
            k <= spans@.len(),
            cursor <= n,
            k < spans@.len() ==> cursor <= sp[k as int].0,
            out@ + urls_redacted(s, sp.skip(k as int), cursor as int, redactor@) == urls_redacted(s, sp, 0, redactor@),
        decreases spans@.len() - k,
    {
        let (start, end) = spans[k];
        assert(sp[k as int] == (start as int, end as int));
        let before = text.substring_char(cursor, start);
        let candidate = text.substring_char(start, end);
        let ghost o = out@;
        push_str(&mut out, before);
        match parse_url(candidate) {
            Ok(u) => {
                let red = redact_http_url(redactor, u.as_str());
                push_str(&mut out, red.as_str());
            },
            Err(_) => push_str(&mut out, "<redacted: invalid URL>"),
        }
        proof {
            let rest = sp.skip(k as int);
            assert(rest[0] == sp[k as int]);
            assert(rest.drop_first() =~= sp.skip(k + 1));
            assert(out@ =~= o + s.subrange(cursor as int, start as int) + url_replacement(
                redactor@,
                s.subrange(start as int, end as int),
            ));
        }
        cursor = end;
        k = k + 1;
    }
    assert(sp.skip(k as int).len() == 0);
    let tail = text.substring_char(cursor, n);
    push_str(&mut out, tail);
    out
}

} // verus!
