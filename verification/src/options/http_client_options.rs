//! Client-level options: base URL, default headers, sections for timeouts,
//! proxy, logging and retry, response and event-stream limits, and log
//! redaction lists; how they are read from configuration and validated.
use vstd::prelude::*;

use super::http_config_error::HttpConfigError;
use super::http_config_error_kind::HttpConfigErrorKind;
use super::http_timeout_options::{timeout_problem, zero_timeout_message, HttpTimeoutOptions};
use super::logging_options::{
    default_logging_options, logging_options_valid, or_default, HttpLoggingOptions,
};
use super::proxy_options::{opt_view, ProxyOptions};
use super::http_retry_options::{
    default_delay_plan, retry_options_problem, HttpRetryOptions, DEFAULT_RETRY_MAX_ATTEMPTS,
};
use super::http_retry_method_policy::HttpRetryMethodPolicy;
use super::proxy_type::ProxyType;
use super::sse_decode_options::SseJsonMode;
use crate::constants::{
    DEFAULT_ERROR_RESPONSE_PREVIEW_LIMIT_BYTES, DEFAULT_RESPONSE_BODY_SIZE_LIMIT_BYTES,
    DEFAULT_SSE_MAX_FRAME_BYTES, DEFAULT_SSE_MAX_LINE_BYTES,
};
use crate::error::http_error::HttpError;
use crate::error::http_error_kind::HttpErrorKind;
use crate::header::{
    canonical_pairs, first_header_problem, first_pair_problem, header_list_from,
    header_list_from_entries, header_list_insert, header_list_set_all, header_list_view,
    header_name_canonical, header_pair_problem, header_pairs_view, header_value_ok,
    insert_header, is_valid_header_value, parse_header, parse_headers, set_headers, HeaderList,
};
use crate::text::{
    texts,
    eq_ignore_ascii_case, eq_ignore_ascii_case_seq, matches_ignore_case, matches_ignore_case_seq,
    push_str, starts_with_seq, str_starts_with, trim, trim_seq,
};
use crate::time_span::TimeSpan;

verus! {

/// Names what `url::Url::parse` gives for a text: the serialization of the
/// parsed URL, or the display text of the parse error.
pub uninterp spec fn url_parse_outcome(s: Seq<char>) -> Result<Seq<char>, Seq<char>>;

/// Calls `url::Url::parse`; on success the URL is handed back as its
/// serialization (`Url::as_str`), on failure the error's display text is
/// handed back.
#[verifier::external_body]
pub(crate) fn parse_url(s: &str) -> (r: Result<String, String>)
    ensures
        match r {
            Ok(u) => url_parse_outcome(s@) == Ok::<Seq<char>, Seq<char>>(u@),
            Err(m) => url_parse_outcome(s@) == Err::<Seq<char>, Seq<char>>(m@),
        },
{
    match url::Url::parse(s) {
        Ok(u) => Ok(u.as_str().to_owned()),
        Err(e) => Err(e.to_string()),
    }
}

/// Names what `serde_json::from_str::<HashMap<String, String>>` gives for a
/// text: the map of the JSON object, or the display text of the error.
pub uninterp spec fn json_string_map_outcome(s: Seq<char>) -> Result<
    Map<Seq<char>, Seq<char>>,
    Seq<char>,
>;

/// The entries list every key of `m` once, each with its value.
pub open spec fn enumerates(es: HeaderList, m: Map<Seq<char>, Seq<char>>) -> bool {
    &&& forall|i: int, j: int| 0 <= i < j < es.len() ==> es[i].0 != es[j].0
    &&& forall|i: int| 0 <= i < es.len() ==> m.contains_key(#[trigger] es[i].0) && m[es[i].0] == es[i].1
    &&& forall|k: Seq<char>| m.contains_key(k) ==> exists|i: int| 0 <= i < es.len() && es[i].0 == k
}

/// Calls `serde_json::from_str::<HashMap<String, String>>` and lists the
/// map's entries in the map's iteration order, which the hasher's random
/// seed decides: only that each key is listed once with its value is stated.
#[verifier::external_body]
fn parse_json_string_map(s: &str) -> (r: Result<Vec<(String, String)>, String>)
    ensures
        match r {
            Ok(v) => json_string_map_outcome(s@) is Ok && enumerates(
                header_list_view(v@),
                json_string_map_outcome(s@)->Ok_0,
            ),
            Err(m) => json_string_map_outcome(s@) == Err::<Map<Seq<char>, Seq<char>>, Seq<char>>(
                m@,
            ),
        },
{
    match serde_json::from_str::<std::collections::HashMap<String, String>>(s) {
        Ok(map) => Ok(map.into_iter().collect()),
        Err(e) => Err(e.to_string()),
    }
}

/// Names what `qubit_redact` reports when a field name is raised in a
/// redaction policy: `None` when accepted, else the error's display text.
pub uninterp spec fn redaction_field_rejection(name: Seq<char>) -> Option<Seq<char>>;

/// Calls `qubit_redact::RedactionFloor::builder().raise(name, Sensitivity::Low)`
/// and hands back the error's display text when the name is refused.
#[verifier::external_body]
pub(crate) fn check_redaction_field(name: &str) -> (r: Option<String>)
    ensures
        match r {
            None => redaction_field_rejection(name@) is None,
            Some(m) => redaction_field_rejection(name@) == Some(m@),
        },
{
    match qubit_redact::RedactionFloor::builder().raise(name, qubit_redact::Sensitivity::Low) {
        Ok(_) => None,
        Err(e) => Some(e.to_string()),
    }
}

/// The root key of `name` under a configuration section at `section`
/// (dot-separated; an empty side contributes nothing).
pub open spec fn join_path(section: Seq<char>, name: Seq<char>) -> Seq<char> {
    if section.len() == 0 {
        name
    } else if name.len() == 0 {
        section
    } else {
        section + "."@ + name
    }
}

/// Computes [`join_path`].
pub fn join_config_path(section: &str, name: &str) -> (r: String)
    ensures
        r@ == join_path(section@, name@),
{
    if section.unicode_len() == 0 {
        name.to_owned()
    } else if name.unicode_len() == 0 {
        section.to_owned()
    } else {
        let mut r = section.to_owned();
        push_str(&mut r, ".");
        push_str(&mut r, name);
        r
    }
}

/// Whether `path` already lies under `section`: equal to it, or continuing it
/// after a dot.
pub open spec fn path_within(path: Seq<char>, section: Seq<char>) -> bool {
    path == section || (starts_with_seq(path, section) && path.len() > section.len()
        && path[section.len() as int] == '.')
}

/// The root path of an error raised by a section at `section`: an empty path
/// is the section itself; a path already within the section (or any path
/// when the section is the root) is kept; any other path is resolved under
/// the section.
pub open spec fn resolved_error_path(section: Seq<char>, path: Seq<char>) -> Seq<char> {
    if path.len() == 0 {
        section
    } else if section.len() == 0 || path_within(path, section) {
        path
    } else {
        section + "."@ + path
    }
}

/// The error with its path resolved under `section`.
pub open spec fn resolved_error(section: Seq<char>, e: (HttpConfigErrorKind, Seq<char>, Seq<char>)) -> (
    HttpConfigErrorKind,
    Seq<char>,
    Seq<char>,
) {
    (e.0, resolved_error_path(section, e.1), e.2)
}

/// Resolves the path of an error raised under the configuration section at
/// `section_path` to a root path (see [`resolved_error_path`]).
pub fn resolve_config_error(section_path: &str, error: HttpConfigError) -> (r: HttpConfigError)
    ensures
        r@ == resolved_error(section_path@, error@),
{
    let HttpConfigError { path, message, kind } = error;
    let p = path.as_str();
    let new_path = if p.unicode_len() == 0 {
        section_path.to_owned()
    } else if section_path.unicode_len() == 0 {
        path.clone()
    } else if path == section_path.to_owned() {
        path.clone()
    } else if str_starts_with(p, section_path) && p.unicode_len() > section_path.unicode_len()
        && p.get_char(section_path.unicode_len()) == '.' {
        path.clone()
    } else {
        let mut r = section_path.to_owned();
        push_str(&mut r, ".");
        push_str(&mut r, p);
        r
    };
    HttpConfigError { path: new_path, message, kind }
}

/// The message of a zero limit.
pub open spec fn positive_limit_message() -> Seq<char> {
    "Value must be greater than 0"@
}

/// Rejects a zero limit, reporting an invalid value at `path`.
pub fn validate_positive_limit(path: &str, value: usize) -> (r: Result<usize, HttpConfigError>)
    ensures
        match r {
            Ok(v) => value > 0 && v == value,
            Err(e) => value == 0 && e@ == (
                HttpConfigErrorKind::InvalidValue,
                path@,
                positive_limit_message(),
            ),
        },
{
    if value == 0 {
        return Err(HttpConfigError::invalid_value(path, "Value must be greater than 0"));
    }
    Ok(value)
}

/// Parses an absolute base URL, reporting an invalid value at `base_url`.
pub fn parse_base_url(base_url: &str) -> (r: Result<String, HttpConfigError>)
    ensures
        match r {
            Ok(u) => url_parse_outcome(base_url@) == Ok::<Seq<char>, Seq<char>>(u@),
            Err(e) => url_parse_outcome(base_url@) is Err && e@ == (
                HttpConfigErrorKind::InvalidValue,
                "base_url"@,
                "Invalid URL: "@ + url_parse_outcome(base_url@)->Err_0,
            ),
        },
{
    match parse_url(base_url) {
        Ok(u) => Ok(u),
        Err(m) => {
            let mut message = "Invalid URL: ".to_owned();
            push_str(&mut message, m.as_str());
            Err(HttpConfigError::from_parts(HttpConfigErrorKind::InvalidValue, "base_url".to_owned(), message))
        },
    }
}

/// The JSON mode a configuration word names (trimmed, case-insensitive):
/// `LENIENT` or `STRICT`.
pub open spec fn sse_json_mode_named(s: Seq<char>) -> Option<SseJsonMode> {
    let t = trim_seq(s);
    if matches_ignore_case_seq(t, "LENIENT"@) {
        Some(SseJsonMode::Lenient)
    } else if matches_ignore_case_seq(t, "STRICT"@) {
        Some(SseJsonMode::Strict)
    } else {
        None
    }
}

/// Parses the configured event-stream JSON mode, reporting an invalid value
/// at `json_mode`.
pub fn parse_sse_json_mode(value: &str) -> (r: Result<SseJsonMode, HttpConfigError>)
    ensures
        match r {
            Ok(m) => sse_json_mode_named(value@) == Some(m),
            Err(e) => sse_json_mode_named(value@) is None && e@ == (
                HttpConfigErrorKind::InvalidValue,
                "json_mode"@,
                "Unsupported SSE JSON mode: "@ + value@,
            ),
        },
{
    let t = trim(value);
    if matches_ignore_case(t, "LENIENT") {
        return Ok(SseJsonMode::Lenient);
    }
    if matches_ignore_case(t, "STRICT") {
        return Ok(SseJsonMode::Strict);
    }
    let mut message = "Unsupported SSE JSON mode: ".to_owned();
    push_str(&mut message, value);
    Err(HttpConfigError::from_parts(HttpConfigErrorKind::InvalidValue, "json_mode".to_owned(), message))
}

/// Parses the configured end-of-stream marker: any text but a blank one,
/// trimmed.
pub fn parse_sse_done_marker(value: &str) -> (r: Result<String, HttpConfigError>)
    ensures
        match r {
            Ok(m) => trim_seq(value@).len() > 0 && m@ == trim_seq(value@),
            Err(e) => trim_seq(value@).len() == 0 && e@ == (
                HttpConfigErrorKind::InvalidValue,
                "done_marker"@,
                "Value must not be empty"@,
            ),
        },
{
    let t = trim(value);
    if t.unicode_len() == 0 {
        return Err(HttpConfigError::invalid_value("done_marker", "Value must not be empty"));
    }
    Ok(t.to_owned())
}

/// How URL paths appear in logs.
#[derive(Debug, Clone, Copy, PartialEq, Eq, Structural)]
pub enum UrlPathRendering {
    /// Path segments are redacted.
    Redact,
    /// Paths are kept.
    Preserve,
}

/// The rendering a configuration word names (trimmed, ASCII
/// case-insensitive): `redact` or `preserve`.
pub open spec fn url_path_rendering_named(s: Seq<char>) -> Option<UrlPathRendering> {
    let t = trim_seq(s);
    if eq_ignore_ascii_case_seq(t, "redact"@) {
        Some(UrlPathRendering::Redact)
    } else if eq_ignore_ascii_case_seq(t, "preserve"@) {
        Some(UrlPathRendering::Preserve)
    } else {
        None
    }
}

/// Parses the configured URL path rendering, reporting an invalid value at
/// `url_path_policy`.
pub fn parse_url_path_policy(value: &str) -> (r: Result<UrlPathRendering, HttpConfigError>)
    ensures
        match r {
            Ok(p) => url_path_rendering_named(value@) == Some(p),
            Err(e) => url_path_rendering_named(value@) is None && e@ == (
                HttpConfigErrorKind::InvalidValue,
                "url_path_policy"@,
                "Unsupported URL path policy: "@ + value@,
            ),
        },
{
    let t = trim(value);
    if eq_ignore_ascii_case(t, "redact") {
        return Ok(UrlPathRendering::Redact);
    }
    if eq_ignore_ascii_case(t, "preserve") {
        return Ok(UrlPathRendering::Preserve);
    }
    let mut message = "Unsupported URL path policy: ".to_owned();
    push_str(&mut message, value);
    Err(HttpConfigError::from_parts(HttpConfigErrorKind::InvalidValue, "url_path_policy".to_owned(), message))
}

/// Checks one configured redaction field name, reporting a refused name as
/// an invalid value at `field` (the list it came from).
pub fn validate_redaction_field(field: &str, name: &str) -> (r: Result<(), HttpConfigError>)
    ensures
        match r {
            Ok(()) => redaction_field_rejection(name@) is None,
            Err(e) => redaction_field_rejection(name@) matches Some(m) && e@ == (
                HttpConfigErrorKind::InvalidValue,
                field@,
                m,
            ),
        },
{
    match check_redaction_field(name) {
        None => Ok(()),
        Some(m) => Err(HttpConfigError::from_parts(HttpConfigErrorKind::InvalidValue, field.to_owned(), m)),
    }
}

/// The first refused name of a list, as the error at `field`.
pub open spec fn first_refused_name(field: Seq<char>, names: Seq<Seq<char>>) -> Option<
    (HttpConfigErrorKind, Seq<char>, Seq<char>),
>
    decreases names.len(),
{
    if names.len() == 0 {
        None
    } else {
        match first_refused_name(field, names.drop_last()) {
            Some(p) => Some(p),
            None => match redaction_field_rejection(names.last()) {
                Some(m) => Some((HttpConfigErrorKind::InvalidValue, field, m)),
                None => None,
            },
        }
    }
}

proof fn lemma_first_refused_prefix(field: Seq<char>, names: Seq<Seq<char>>, k: int)
    requires
        0 < k <= names.len(),
        first_refused_name(field, names.take(k - 1)) is None,
        redaction_field_rejection(names[k - 1]) is Some,
    ensures
        first_refused_name(field, names) == Some(
            (HttpConfigErrorKind::InvalidValue, field, redaction_field_rejection(names[k - 1])->0),
        ),
    decreases names.len(),
{
    if k == names.len() {
        assert(names.drop_last() =~= names.take(k - 1));
    } else {
        assert(names.drop_last().take(k - 1) =~= names.take(k - 1));
        assert(names.drop_last()[k - 1] == names[k - 1]);
        lemma_first_refused_prefix(field, names.drop_last(), k);
    }
}

/// Checks every name of a configured redaction list, in order; the first
/// refused name is reported at `field`.
pub fn validate_redaction_fields(field: &str, names: &[String]) -> (r: Result<(), HttpConfigError>)
    ensures
        match r {
            Ok(()) => first_refused_name(field@, texts(names@)) is None,
            Err(e) => first_refused_name(field@, texts(names@)) == Some(e@),
        },
{
    let ghost ns = texts(names@);
    let mut i: usize = 0;
    while i < names.len()
        invariant
            i <= names@.len(),
            ns == texts(names@),
            ns.len() == names@.len(),
            first_refused_name(field@, ns.take(i as int)) is None,
        decreases names@.len() - i,
    {
        assert(ns.take(i + 1).drop_last() =~= ns.take(i as int));
        assert(ns[i as int] == names@[i as int]@);
        match validate_redaction_field(field, names[i].as_str()) {
            Ok(()) => {},
            Err(e) => {
                proof {
                    lemma_first_refused_prefix(field@, ns, i + 1);
                }
                return Err(e);
            },
        }
        i = i + 1;
    }
    assert(ns.take(i as int) =~= ns);
    Ok(())
}

/// Redaction lists and URL path rendering read from configuration, from
/// which the log redactor is built.
#[derive(Debug)]
pub struct LogRedactionSettings {
    /// How URL paths are rendered, when configured.
    pub url_path_policy: Option<UrlPathRendering>,
    /// Header names raised to high sensitivity.
    pub sensitive_headers: Vec<String>,
    /// Query parameter names raised to high sensitivity.
    pub sensitive_query_params: Vec<String>,
    /// Body field names raised to high sensitivity.
    pub sensitive_body_fields: Vec<String>,
    /// Header names allowed in clear.
    pub excluded_sensitive_headers: Vec<String>,
    /// Query parameter names allowed in clear.
    pub excluded_sensitive_query_params: Vec<String>,
    /// Body field names allowed in clear.
    pub excluded_sensitive_body_fields: Vec<String>,
}

/// The view of redaction settings: the path rendering, then the raised
/// header, query and body names, then the allowed header, query and body
/// names.
pub type RedactionRules = (
    Option<UrlPathRendering>,
    Seq<Seq<char>>,
    Seq<Seq<char>>,
    Seq<Seq<char>>,
    Seq<Seq<char>>,
    Seq<Seq<char>>,
    Seq<Seq<char>>,
);

impl View for LogRedactionSettings {
    type V = RedactionRules;

    open spec fn view(&self) -> RedactionRules {
        (
            self.url_path_policy,
            texts(self.sensitive_headers@),
            texts(self.sensitive_query_params@),
            texts(self.sensitive_body_fields@),
            texts(self.excluded_sensitive_headers@),
            texts(self.excluded_sensitive_query_params@),
            texts(self.excluded_sensitive_body_fields@),
        )
    }
}

fn clone_strings(v: &Vec<String>) -> (r: Vec<String>)
    ensures
        texts(r@) == texts(v@),
{
    let mut out: Vec<String> = Vec::new();
    let mut i: usize = 0;
    while i < v.len()
        invariant
            i <= v@.len(),
            texts(out@) == texts(v@).take(i as int),
        decreases v@.len() - i,
    {
        let ghost before = texts(out@);
        out.push(v[i].clone());
        assert(texts(out@) =~= before.push(v@[i as int]@));
        assert(texts(v@).take(i + 1) =~= texts(v@).take(i as int).push(v@[i as int]@));
        i = i + 1;
    }
    assert(texts(v@).take(i as int) =~= texts(v@));
    out
}

impl LogRedactionSettings {
    /// A copy with the same view.
    pub fn duplicate(&self) -> (r: Self)
        ensures
            r@ == self@,
    {
        LogRedactionSettings {
            url_path_policy: self.url_path_policy,
            sensitive_headers: clone_strings(&self.sensitive_headers),
            sensitive_query_params: clone_strings(&self.sensitive_query_params),
            sensitive_body_fields: clone_strings(&self.sensitive_body_fields),
            excluded_sensitive_headers: clone_strings(&self.excluded_sensitive_headers),
            excluded_sensitive_query_params: clone_strings(&self.excluded_sensitive_query_params),
            excluded_sensitive_body_fields: clone_strings(&self.excluded_sensitive_body_fields),
        }
    }

    /// No list and no path rendering configured.
    pub fn new() -> (r: Self)
        ensures
            r.url_path_policy is None,
            r.sensitive_headers@.len() == 0 && r.sensitive_query_params@.len() == 0
                && r.sensitive_body_fields@.len() == 0,
            r.excluded_sensitive_headers@.len() == 0 && r.excluded_sensitive_query_params@.len()
                == 0 && r.excluded_sensitive_body_fields@.len() == 0,
            r@ == no_redaction_rules(),
    {
        let r = LogRedactionSettings {
            url_path_policy: None,
            sensitive_headers: Vec::new(),
            sensitive_query_params: Vec::new(),
            sensitive_body_fields: Vec::new(),
            excluded_sensitive_headers: Vec::new(),
            excluded_sensitive_query_params: Vec::new(),
            excluded_sensitive_body_fields: Vec::new(),
        };
        assert(r@ =~= no_redaction_rules());
        r
    }
}

/// The rules of settings with nothing configured.
pub open spec fn no_redaction_rules() -> RedactionRules {
    (None, seq![], seq![], seq![], seq![], seq![], seq![])
}

/// Proxy options at their defaults: disabled, HTTP, no host, port or
/// credentials.
pub open spec fn is_default_proxy(p: ProxyOptions) -> bool {
    &&& !p.enabled && p.proxy_type == ProxyType::Http
    &&& p.host is None && p.port is None && p.username is None && p.password is None
}

/// Retry options at their defaults: disabled, the default attempt count and
/// delay plan, no time bound, idempotent methods only, the default status
/// codes and error kinds.
pub open spec fn is_default_retry(r: HttpRetryOptions) -> bool {
    &&& !r.enabled && r.max_attempts == DEFAULT_RETRY_MAX_ATTEMPTS && r.max_duration is None
    &&& r.delay_strategy == default_delay_plan()
    &&& r.method_policy == HttpRetryMethodPolicy::IdempotentOnly
    &&& r.retry_status_codes is None && r.retry_error_kinds is None
}

/// Aggregated client settings.
#[derive(Debug)]
pub struct HttpClientOptions {
    /// Optional base URL, as the serialization of the parsed URL.
    pub base_url: Option<String>,
    /// Default request headers, canonical names, each once.
    pub default_headers: Vec<(String, String)>,
    /// Timeout options.
    pub timeouts: HttpTimeoutOptions,
    /// Proxy options.
    pub proxy: ProxyOptions,
    /// Logging options.
    pub logging: HttpLoggingOptions,
    /// Maximum bytes kept as the body preview of a non-success response.
    pub error_response_preview_limit: usize,
    /// Maximum bytes read when a response body is read whole.
    pub response_body_size_limit: usize,
    /// Optional default `User-Agent`.
    pub user_agent: Option<String>,
    /// Optional redirect limit.
    pub max_redirects: Option<usize>,
    /// Optional idle time after which pooled connections close.
    pub pool_idle_timeout: Option<TimeSpan>,
    /// Optional maximum idle connections per host.
    pub pool_max_idle_per_host: Option<usize>,
    /// Whether proxy settings come from the environment when no proxy is
    /// configured.
    pub use_env_proxy: bool,
    /// Retry options.
    pub retry: HttpRetryOptions,
    /// Log redaction settings.
    pub log_redaction: LogRedactionSettings,
    /// Whether only IPv4 addresses are used.
    pub ipv4_only: bool,
    /// Default JSON mode for event streams.
    pub sse_json_mode: SseJsonMode,
    /// Configured end-of-stream marker, when not the default one.
    pub sse_done_marker: Option<String>,
    /// Default maximum bytes of one event-stream line.
    pub sse_max_line_bytes: usize,
    /// Default maximum bytes of one event-stream frame.
    pub sse_max_frame_bytes: usize,
}

/// The configuration error `e` with `prefix.` put before its path.
pub open spec fn prefixed_error(prefix: Seq<char>, e: (HttpConfigErrorKind, Seq<char>, Seq<char>)) -> (
    HttpConfigErrorKind,
    Seq<char>,
    Seq<char>,
) {
    (e.0, prefix + "."@ + e.1, e.2)
}

/// The first problem `HttpClientOptions::validate` reports, if any: the
/// timeouts, proxy, logging and retry sections in turn, then the limits, the
/// user agent and the event-stream limits.
pub open spec fn client_options_problem(o: HttpClientOptions) -> Option<
    (HttpConfigErrorKind, Seq<char>, Seq<char>),
> {
    if timeout_problem(o.timeouts) is Some {
        Some(
            prefixed_error(
                "timeouts"@,
                (HttpConfigErrorKind::InvalidValue, timeout_problem(o.timeouts)->0, zero_timeout_message()),
            ),
        )
    } else if o.proxy.problem() is Some {
        o.proxy.problem()
    } else if !logging_options_valid(o.logging) {
        Some(
            (
                HttpConfigErrorKind::InvalidValue,
                "logging.body_size_limit"@,
                "body_size_limit must be greater than 0 when body logging is enabled"@,
            ),
        )
    } else if retry_options_problem(o.retry) is Some {
        Some(prefixed_error("retry"@, retry_options_problem(o.retry)->0))
    } else if o.error_response_preview_limit == 0 {
        Some((HttpConfigErrorKind::InvalidValue, "error_response_preview_limit"@, positive_limit_message()))
    } else if o.response_body_size_limit == 0 {
        Some((HttpConfigErrorKind::InvalidValue, "response_body_size_limit"@, positive_limit_message()))
    } else if o.user_agent is Some && trim_seq(o.user_agent->0@).len() == 0 {
        Some((HttpConfigErrorKind::InvalidValue, "user_agent"@, "Value cannot be empty"@))
    } else if o.user_agent is Some && !header_value_ok(o.user_agent->0@) {
        Some(
            (
                HttpConfigErrorKind::InvalidValue,
                "user_agent"@,
                "Invalid header value: failed to parse header value"@,
            ),
        )
    } else if o.sse_max_line_bytes == 0 {
        Some((HttpConfigErrorKind::InvalidValue, "sse.max_line_bytes"@, positive_limit_message()))
    } else if o.sse_max_frame_bytes == 0 {
        Some((HttpConfigErrorKind::InvalidValue, "sse.max_frame_bytes"@, positive_limit_message()))
    } else {
        None
    }
}

/// Puts `prefix.` before the path of an error.
fn prefix_error_path(prefix: &str, e: HttpConfigError) -> (r: HttpConfigError)
    ensures
        r@ == prefixed_error(prefix@, e@),
{
    let HttpConfigError { path, message, kind } = e;
    let mut p = prefix.to_owned();
    push_str(&mut p, ".");
    push_str(&mut p, path.as_str());
    HttpConfigError { path: p, message, kind }
}

/// Root-level values read from a client configuration.
#[derive(Debug)]
pub struct HttpClientRootInput {
    /// `base_url`.
    pub base_url: Option<String>,
    /// `ipv4_only`.
    pub ipv4_only: Option<bool>,
    /// `error_response_preview_limit`.
    pub error_response_preview_limit: Option<usize>,
    /// `response_body_size_limit`.
    pub response_body_size_limit: Option<usize>,
    /// `user_agent`.
    pub user_agent: Option<String>,
    /// `max_redirects`.
    pub max_redirects: Option<usize>,
    /// `pool_idle_timeout`.
    pub pool_idle_timeout: Option<TimeSpan>,
    /// `pool_max_idle_per_host`.
    pub pool_max_idle_per_host: Option<usize>,
    /// `use_env_proxy`.
    pub use_env_proxy: Option<bool>,
}

/// Values read from the `sse` section.
#[derive(Debug)]
pub struct SseConfigInput {
    /// `json_mode`.
    pub json_mode: Option<String>,
    /// `done_marker`.
    pub done_marker: Option<String>,
    /// `max_line_bytes`.
    pub max_line_bytes: Option<usize>,
    /// `max_frame_bytes`.
    pub max_frame_bytes: Option<usize>,
}

/// Values read from the `log_redaction` section.
#[derive(Debug)]
pub struct LogRedactionConfigInput {
    /// `url_path_policy`.
    pub url_path_policy: Option<String>,
    /// `sensitive_headers`.
    pub sensitive_headers: Option<Vec<String>>,
    /// `sensitive_query_params`.
    pub sensitive_query_params: Option<Vec<String>>,
    /// `sensitive_body_fields`.
    pub sensitive_body_fields: Option<Vec<String>>,
    /// `excluded_sensitive_headers`.
    pub excluded_sensitive_headers: Option<Vec<String>>,
    /// `excluded_sensitive_query_params`.
    pub excluded_sensitive_query_params: Option<Vec<String>>,
    /// `excluded_sensitive_body_fields`.
    pub excluded_sensitive_body_fields: Option<Vec<String>>,
}

/// Default headers as configured: `default_headers.<name>` sub-keys (or the
/// already resolved error of reading one), and the JSON map text at
/// `default_headers` (or the error of reading it).
#[derive(Debug)]
pub struct DefaultHeadersInput {
    /// Sub-key entries, names as written.
    pub entries: Result<Vec<(String, String)>, HttpConfigError>,
    /// JSON map text, when present.
    pub json: Result<Option<String>, HttpConfigError>,
}

/// Everything read from a client configuration section at `path`; each
/// nested section, when present, as its parsed options or the error of
/// reading or building them.
#[derive(Debug)]
pub struct HttpClientConfigInput {
    /// Root path of the configuration section (empty for the root).
    pub path: String,
    /// Root-level values.
    pub root: Result<HttpClientRootInput, HttpConfigError>,
    /// The `timeouts` section.
    pub timeouts: Option<Result<HttpTimeoutOptions, HttpConfigError>>,
    /// The `proxy` section.
    pub proxy: Option<Result<ProxyOptions, HttpConfigError>>,
    /// The `logging` section.
    pub logging: Option<Result<HttpLoggingOptions, HttpConfigError>>,
    /// The `retry` section.
    pub retry: Option<Result<HttpRetryOptions, HttpConfigError>>,
    /// The `sse` section.
    pub sse: Option<Result<SseConfigInput, HttpConfigError>>,
    /// The `log_redaction` section.
    pub log_redaction: Option<Result<LogRedactionConfigInput, HttpConfigError>>,
    /// Default headers.
    pub default_headers: DefaultHeadersInput,
}

/// The first problem of root-level values: base URL, then the two limits.
pub open spec fn root_problem(r: HttpClientRootInput) -> Option<(HttpConfigErrorKind, Seq<char>, Seq<char>)> {
    if r.base_url is Some && url_parse_outcome(r.base_url->0@) is Err {
        Some(
            (
                HttpConfigErrorKind::InvalidValue,
                "base_url"@,
                "Invalid URL: "@ + url_parse_outcome(r.base_url->0@)->Err_0,
            ),
        )
    } else if r.error_response_preview_limit == Some(0usize) {
        Some((HttpConfigErrorKind::InvalidValue, "error_response_preview_limit"@, positive_limit_message()))
    } else if r.response_body_size_limit == Some(0usize) {
        Some((HttpConfigErrorKind::InvalidValue, "response_body_size_limit"@, positive_limit_message()))
    } else {
        None
    }
}

/// The first problem of the `sse` section values.
pub open spec fn sse_problem(s: SseConfigInput) -> Option<(HttpConfigErrorKind, Seq<char>, Seq<char>)> {
    if s.json_mode is Some && sse_json_mode_named(s.json_mode->0@) is None {
        Some(
            (
                HttpConfigErrorKind::InvalidValue,
                "json_mode"@,
                "Unsupported SSE JSON mode: "@ + s.json_mode->0@,
            ),
        )
    } else if s.done_marker is Some && trim_seq(s.done_marker->0@).len() == 0 {
        Some((HttpConfigErrorKind::InvalidValue, "done_marker"@, "Value must not be empty"@))
    } else if s.max_line_bytes == Some(0usize) {
        Some((HttpConfigErrorKind::InvalidValue, "max_line_bytes"@, positive_limit_message()))
    } else if s.max_frame_bytes == Some(0usize) {
        Some((HttpConfigErrorKind::InvalidValue, "max_frame_bytes"@, positive_limit_message()))
    } else {
        None
    }
}

/// The names of an optional list (none when absent).
pub open spec fn opt_names(v: Option<Vec<String>>) -> Seq<Seq<char>> {
    match v {
        Some(x) => texts(x@),
        None => seq![],
    }
}

/// The first problem of the `log_redaction` section values: the path
/// rendering, then each list in turn.
pub open spec fn log_redaction_problem(l: LogRedactionConfigInput) -> Option<
    (HttpConfigErrorKind, Seq<char>, Seq<char>),
> {
    if l.url_path_policy is Some && url_path_rendering_named(l.url_path_policy->0@) is None {
        Some(
            (
                HttpConfigErrorKind::InvalidValue,
                "url_path_policy"@,
                "Unsupported URL path policy: "@ + l.url_path_policy->0@,
            ),
        )
    } else if first_refused_name("sensitive_headers"@, opt_names(l.sensitive_headers)) is Some {
        first_refused_name("sensitive_headers"@, opt_names(l.sensitive_headers))
    } else if first_refused_name("sensitive_query_params"@, opt_names(l.sensitive_query_params)) is Some {
        first_refused_name("sensitive_query_params"@, opt_names(l.sensitive_query_params))
    } else if first_refused_name("sensitive_body_fields"@, opt_names(l.sensitive_body_fields)) is Some {
        first_refused_name("sensitive_body_fields"@, opt_names(l.sensitive_body_fields))
    } else if first_refused_name("excluded_sensitive_headers"@, opt_names(l.excluded_sensitive_headers))
        is Some {
        first_refused_name("excluded_sensitive_headers"@, opt_names(l.excluded_sensitive_headers))
    } else if first_refused_name(
        "excluded_sensitive_query_params"@,
        opt_names(l.excluded_sensitive_query_params),
    ) is Some {
        first_refused_name(
            "excluded_sensitive_query_params"@,
            opt_names(l.excluded_sensitive_query_params),
        )
    } else {
        first_refused_name(
            "excluded_sensitive_body_fields"@,
            opt_names(l.excluded_sensitive_body_fields),
        )
    }
}

/// Whether settings hold exactly the configured lists and path rendering.
pub open spec fn redaction_settings_match(s: LogRedactionSettings, l: LogRedactionConfigInput) -> bool {
    &&& s.url_path_policy == match l.url_path_policy {
        Some(v) => url_path_rendering_named(v@),
        None => None,
    }
    &&& texts(s.sensitive_headers@) == opt_names(l.sensitive_headers)
    &&& texts(s.sensitive_query_params@) == opt_names(l.sensitive_query_params)
    &&& texts(s.sensitive_body_fields@) == opt_names(l.sensitive_body_fields)
    &&& texts(s.excluded_sensitive_headers@) == opt_names(l.excluded_sensitive_headers)
    &&& texts(s.excluded_sensitive_query_params@) == opt_names(l.excluded_sensitive_query_params)
    &&& texts(s.excluded_sensitive_body_fields@) == opt_names(l.excluded_sensitive_body_fields)
}

fn take_names(v: Option<Vec<String>>) -> (r: Vec<String>)
    ensures
        texts(r@) == opt_names(v),
{
    match v {
        Some(x) => x,
        None => {
            let r: Vec<String> = Vec::new();
            assert(texts(r@) =~= seq![]);
            r
        },
    }
}

fn check_names(field: &str, v: &Option<Vec<String>>) -> (r: Result<(), HttpConfigError>)
    ensures
        match r {
            Ok(()) => first_refused_name(field@, opt_names(*v)) is None,
            Err(e) => first_refused_name(field@, opt_names(*v)) == Some(e@),
        },
{
    match v {
        Some(x) => validate_redaction_fields(field, x.as_slice()),
        None => Ok(()),
    }
}

/// Checks the `log_redaction` section values and keeps them as settings.
pub fn log_redaction_from_config_input(l: LogRedactionConfigInput) -> (r: Result<
    LogRedactionSettings,
    HttpConfigError,
>)
    ensures
        match r {
            Ok(s) => log_redaction_problem(l) is None && redaction_settings_match(s, l),
            Err(e) => log_redaction_problem(l) == Some(e@),
        },
{
    let url_path_policy = match &l.url_path_policy {
        Some(v) => Some(parse_url_path_policy(v.as_str())?),
        None => None,
    };
    check_names("sensitive_headers", &l.sensitive_headers)?;
    check_names("sensitive_query_params", &l.sensitive_query_params)?;
    check_names("sensitive_body_fields", &l.sensitive_body_fields)?;
    check_names("excluded_sensitive_headers", &l.excluded_sensitive_headers)?;
    check_names("excluded_sensitive_query_params", &l.excluded_sensitive_query_params)?;
    check_names("excluded_sensitive_body_fields", &l.excluded_sensitive_body_fields)?;
    let LogRedactionConfigInput {
        url_path_policy: _,
        sensitive_headers,
        sensitive_query_params,
        sensitive_body_fields,
        excluded_sensitive_headers,
        excluded_sensitive_query_params,
        excluded_sensitive_body_fields,
    } = l;
    Ok(
        LogRedactionSettings {
            url_path_policy,
            sensitive_headers: take_names(sensitive_headers),
            sensitive_query_params: take_names(sensitive_query_params),
            sensitive_body_fields: take_names(sensitive_body_fields),
            excluded_sensitive_headers: take_names(excluded_sensitive_headers),
            excluded_sensitive_query_params: take_names(excluded_sensitive_query_params),
            excluded_sensitive_body_fields: take_names(excluded_sensitive_body_fields),
        },
    )
}

/// The root path of the default headers.
pub open spec fn headers_path(path: Seq<char>) -> Seq<char> {
    join_path(path, "default_headers"@)
}

/// The message of default headers configured in both forms.
pub open spec fn mixed_headers_message() -> Seq<char> {
    "default_headers sub-key form and JSON map form cannot be used at the same time"@
}

/// Whether the default headers come from a JSON map.
pub open spec fn json_headers_used(h: DefaultHeadersInput) -> bool {
    h.entries is Ok && h.json matches Ok(Some(_))
}

/// The map of the configured JSON text (meaningful when it parses).
pub open spec fn json_headers_map(h: DefaultHeadersInput) -> Map<Seq<char>, Seq<char>> {
    json_string_map_outcome(h.json->Ok_0->0@)->Ok_0
}

/// The configured sub-key entries (none when reading them failed).
pub open spec fn subkey_entries(h: DefaultHeadersInput) -> HeaderList {
    match h.entries {
        Ok(es) => header_list_view(es@),
        Err(_) => seq![],
    }
}

/// The problem of the default-headers input that does not depend on the
/// order in which a JSON map is walked: a read error, both forms at once, a
/// JSON text that does not parse, or a bad sub-key entry.
pub open spec fn headers_problem(path: Seq<char>, h: DefaultHeadersInput) -> Option<
    (HttpConfigErrorKind, Seq<char>, Seq<char>),
> {
    match h.entries {
        Err(e) => Some(e@),
        Ok(es) => match h.json {
            Err(e) => Some(resolved_error(path, e@)),
            Ok(None) => first_header_problem(headers_path(path), header_list_view(es@)),
            Ok(Some(j)) => if es@.len() > 0 {
                Some((HttpConfigErrorKind::InvalidValue, headers_path(path), mixed_headers_message()))
            } else if json_string_map_outcome(j@) is Err {
                Some(
                    (
                        HttpConfigErrorKind::TypeError,
                        headers_path(path),
                        "Failed to parse default_headers JSON: "@ + json_string_map_outcome(
                            j@,
                        )->Err_0,
                    ),
                )
            } else {
                None
            },
        },
    }
}

/// The outcome for the default headers given the order `es` in which the
/// JSON map was walked: the header list, or the first bad entry.
pub open spec fn json_headers_outcome(
    path: Seq<char>,
    es: HeaderList,
    r: Result<Vec<(String, String)>, HttpConfigError>,
) -> bool {
    match r {
        Ok(v) => first_header_problem(headers_path(path), es) is None && header_list_view(v@)
            == header_list_from(es),
        Err(e) => first_header_problem(headers_path(path), es) == Some(e@),
    }
}

/// Builds the default header list from configuration at `path`: sub-key
/// entries or a JSON map (not both), each name and value checked.
pub fn default_headers_from_config(path: &str, h: DefaultHeadersInput) -> (r: Result<
    Vec<(String, String)>,
    HttpConfigError,
>)
    ensures
        headers_problem(path@, h) matches Some(p) ==> (r matches Err(e) && e@ == p),
        headers_problem(path@, h) is None && !json_headers_used(h) ==> (r matches Ok(v)
            && header_list_view(v@) == header_list_from(subkey_entries(h))),
        headers_problem(path@, h) is None && json_headers_used(h) ==> exists|es: HeaderList|
            enumerates(es, json_headers_map(h)) && #[trigger] json_headers_outcome(path@, es, r),
{
    let DefaultHeadersInput { entries, json } = h;
    let entries = entries?;
    let json = match json {
        Ok(j) => j,
        Err(e) => return Err(resolve_config_error(path, e)),
    };
    let hp = join_config_path(path, "default_headers");
    match json {
        None => header_list_from_entries(hp.as_str(), entries.as_slice()),
        Some(text) => {
            if entries.len() > 0 {
                return Err(
                    HttpConfigError::invalid_value(
                        hp.as_str(),
                        "default_headers sub-key form and JSON map form cannot be used at the same time",
                    ),
                );
            }
            match parse_json_string_map(text.as_str()) {
                Err(m) => {
                    let mut message = "Failed to parse default_headers JSON: ".to_owned();
                    push_str(&mut message, m.as_str());
                    Err(HttpConfigError::from_parts(HttpConfigErrorKind::TypeError, hp, message))
                },
                Ok(parsed) => {
                    let r = header_list_from_entries(hp.as_str(), parsed.as_slice());
                    assert(json_headers_outcome(path@, header_list_view(parsed@), r));
                    r
                },
            }
        },
    }
}

/// The error of a nested section at `name` under `path`, resolved, when the
/// section was present and could not be read or built.
pub open spec fn section_error<T>(path: Seq<char>, name: Seq<char>, sec: Option<Result<T, HttpConfigError>>) -> Option<
    (HttpConfigErrorKind, Seq<char>, Seq<char>),
> {
    match sec {
        Some(Err(e)) => Some(resolved_error(join_path(path, name), e@)),
        _ => None,
    }
}

/// The first problem of a client configuration, checked in the order the
/// values are applied: root values, the timeouts, proxy, logging and retry
/// sections, the `sse` and `log_redaction` sections, then the default
/// headers (see [`headers_problem`]).
pub open spec fn client_config_problem(c: HttpClientConfigInput) -> Option<
    (HttpConfigErrorKind, Seq<char>, Seq<char>),
> {
    let path = c.path@;
    match c.root {
        Err(e) => Some(resolved_error(path, e@)),
        Ok(root) => if root_problem(root) is Some {
            Some(resolved_error(path, root_problem(root)->0))
        } else if section_error(path, "timeouts"@, c.timeouts) is Some {
            section_error(path, "timeouts"@, c.timeouts)
        } else if section_error(path, "proxy"@, c.proxy) is Some {
            section_error(path, "proxy"@, c.proxy)
        } else if section_error(path, "logging"@, c.logging) is Some {
            section_error(path, "logging"@, c.logging)
        } else if section_error(path, "retry"@, c.retry) is Some {
            section_error(path, "retry"@, c.retry)
        } else if section_error(path, "sse"@, c.sse) is Some {
            section_error(path, "sse"@, c.sse)
        } else if c.sse matches Some(Ok(sse)) && sse_problem(sse) is Some {
            Some(resolved_error(join_path(path, "sse"@), sse_problem(c.sse->0->Ok_0)->0))
        } else if section_error(path, "log_redaction"@, c.log_redaction) is Some {
            section_error(path, "log_redaction"@, c.log_redaction)
        } else if c.log_redaction matches Some(Ok(l)) && log_redaction_problem(l) is Some {
            Some(
                resolved_error(
                    join_path(path, "log_redaction"@),
                    log_redaction_problem(c.log_redaction->0->Ok_0)->0,
                ),
            )
        } else {
            headers_problem(path, c.default_headers)
        },
    }
}

/// The default headers of a result.
pub open spec fn headers_result(r: Result<HttpClientOptions, HttpConfigError>) -> Result<
    Vec<(String, String)>,
    HttpConfigError,
> {
    match r {
        Ok(o) => Ok(o.default_headers),
        Err(e) => Err(e),
    }
}

/// Whether the options hold the root-level values (defaults where absent).
pub open spec fn root_applied(o: HttpClientOptions, root: HttpClientRootInput) -> bool {
    &&& o.base_url matches Some(b) ==> root.base_url matches Some(s) && url_parse_outcome(s@)
        == Ok::<Seq<char>, Seq<char>>(b@)
    &&& root.base_url is Some ==> o.base_url is Some
    &&& o.ipv4_only == or_default(root.ipv4_only, false)
    &&& o.error_response_preview_limit == or_default(
        root.error_response_preview_limit,
        DEFAULT_ERROR_RESPONSE_PREVIEW_LIMIT_BYTES,
    )
    &&& o.response_body_size_limit == or_default(
        root.response_body_size_limit,
        DEFAULT_RESPONSE_BODY_SIZE_LIMIT_BYTES,
    )
    &&& opt_view(o.user_agent) == match root.user_agent {
        Some(u) => Some(trim_seq(u@)),
        None => None,
    }
    &&& o.max_redirects == root.max_redirects
    &&& o.pool_idle_timeout == root.pool_idle_timeout
    &&& o.pool_max_idle_per_host == root.pool_max_idle_per_host
    &&& o.use_env_proxy == or_default(root.use_env_proxy, false)
}

/// Whether the options hold the event-stream settings of an `sse` section
/// (defaults where absent).
pub open spec fn sse_applied(o: HttpClientOptions, sse: Option<Result<SseConfigInput, HttpConfigError>>) -> bool {
    match sse {
        Some(Ok(sse)) => {
            &&& o.sse_json_mode == match sse.json_mode {
                Some(m) => sse_json_mode_named(m@)->0,
                None => SseJsonMode::Lenient,
            }
            &&& opt_view(o.sse_done_marker) == match sse.done_marker {
                Some(d) => Some(trim_seq(d@)),
                None => None,
            }
            &&& o.sse_max_line_bytes == or_default(sse.max_line_bytes, DEFAULT_SSE_MAX_LINE_BYTES)
            &&& o.sse_max_frame_bytes == or_default(sse.max_frame_bytes, DEFAULT_SSE_MAX_FRAME_BYTES)
        },
        _ => {
            &&& o.sse_json_mode == SseJsonMode::Lenient
            &&& o.sse_done_marker is None
            &&& o.sse_max_line_bytes == DEFAULT_SSE_MAX_LINE_BYTES
            &&& o.sse_max_frame_bytes == DEFAULT_SSE_MAX_FRAME_BYTES
        },
    }
}

/// Whether the options hold the nested sections (defaults where absent).
pub open spec fn sections_applied(o: HttpClientOptions, c: HttpClientConfigInput) -> bool {
    &&& o.timeouts == match c.timeouts {
        Some(t) => t->Ok_0,
        None => HttpTimeoutOptions::default_options_spec(),
    }
    &&& c.proxy matches Some(p) ==> o.proxy == p->Ok_0
    &&& c.proxy is None ==> is_default_proxy(o.proxy)
    &&& o.logging == match c.logging {
        Some(l) => l->Ok_0,
        None => default_logging_options(),
    }
    &&& c.retry matches Some(x) ==> o.retry == x->Ok_0
    &&& c.retry is None ==> is_default_retry(o.retry)
    &&& match c.log_redaction {
        Some(Ok(l)) => redaction_settings_match(o.log_redaction, l),
        _ => o.log_redaction@ == no_redaction_rules(),
    }
}

/// Whether the options hold the configured values (defaults where absent),
/// apart from the default headers.
pub open spec fn client_options_match(o: HttpClientOptions, c: HttpClientConfigInput) -> bool {
    &&& root_applied(o, c.root->Ok_0)
    &&& sections_applied(o, c)
    &&& sse_applied(o, c.sse)
}

/// Options holding the root-level values, everything else at its default.
fn options_from_root(root: &HttpClientRootInput) -> (r: Result<HttpClientOptions, HttpConfigError>)
    ensures
        match r {
            Ok(o) => root_problem(*root) is None && root_applied(o, *root) && o.timeouts
                == HttpTimeoutOptions::default_options_spec() && is_default_proxy(o.proxy)
                && o.logging == default_logging_options() && is_default_retry(o.retry)
                && o.log_redaction@ == no_redaction_rules() && sse_applied(
                o,
                None,
            ),
            Err(e) => root_problem(*root) == Some(e@),
        },
{
    let mut opts = HttpClientOptions::new();
    if let Some(s) = &root.base_url {
        opts.base_url = Some(parse_base_url(s.as_str())?);
    }
    if let Some(v) = root.ipv4_only {
        opts.ipv4_only = v;
    }
    if let Some(limit) = root.error_response_preview_limit {
        opts.error_response_preview_limit = validate_positive_limit("error_response_preview_limit", limit)?;
    }
    if let Some(limit) = root.response_body_size_limit {
        opts.response_body_size_limit = validate_positive_limit("response_body_size_limit", limit)?;
    }
    if let Some(user_agent) = &root.user_agent {
        opts.user_agent = Some(trim(user_agent.as_str()).to_owned());
    }
    opts.max_redirects = root.max_redirects;
    opts.pool_idle_timeout = root.pool_idle_timeout;
    opts.pool_max_idle_per_host = root.pool_max_idle_per_host;
    if let Some(v) = root.use_env_proxy {
        opts.use_env_proxy = v;
    }
    Ok(opts)
}

/// Event-stream settings of an `sse` section: JSON mode, end marker and the
/// two byte limits.
fn sse_settings(sse: &SseConfigInput) -> (r: Result<(SseJsonMode, Option<String>, usize, usize), HttpConfigError>)
    ensures
        match r {
            Ok((mode, marker, line, frame)) => sse_problem(*sse) is None && mode == match sse.json_mode {
                Some(m) => sse_json_mode_named(m@)->0,
                None => SseJsonMode::Lenient,
            } && opt_view(marker) == match sse.done_marker {
                Some(d) => Some(trim_seq(d@)),
                None => None,
            } && line == or_default(sse.max_line_bytes, DEFAULT_SSE_MAX_LINE_BYTES) && frame
                == or_default(sse.max_frame_bytes, DEFAULT_SSE_MAX_FRAME_BYTES),
            Err(e) => sse_problem(*sse) == Some(e@),
        },
{
    let mode = match &sse.json_mode {
        Some(m) => parse_sse_json_mode(m.as_str())?,
        None => SseJsonMode::Lenient,
    };
    let marker = match &sse.done_marker {
        Some(d) => Some(parse_sse_done_marker(d.as_str())?),
        None => None,
    };
    let line = match sse.max_line_bytes {
        Some(l) => validate_positive_limit("max_line_bytes", l)?,
        None => DEFAULT_SSE_MAX_LINE_BYTES,
    };
    let frame = match sse.max_frame_bytes {
        Some(l) => validate_positive_limit("max_frame_bytes", l)?,
        None => DEFAULT_SSE_MAX_FRAME_BYTES,
    };
    Ok((mode, marker, line, frame))
}

impl HttpClientOptions {
    /// No base URL or default headers; default sections, limits and
    /// event-stream settings; IPv4-only and environment proxy off.
    pub fn new() -> (r: Self)
        ensures
            r.base_url is None,
            r.default_headers@.len() == 0,
            r.timeouts == HttpTimeoutOptions::default_options_spec(),
            r.proxy.problem() is None && is_default_proxy(r.proxy),
            r.logging == default_logging_options(),
            r.error_response_preview_limit == DEFAULT_ERROR_RESPONSE_PREVIEW_LIMIT_BYTES,
            r.response_body_size_limit == DEFAULT_RESPONSE_BODY_SIZE_LIMIT_BYTES,
            r.user_agent is None && r.max_redirects is None,
            r.pool_idle_timeout is None && r.pool_max_idle_per_host is None,
            !r.use_env_proxy && !r.ipv4_only,
            is_default_retry(r.retry),
            r.sse_json_mode == SseJsonMode::Lenient,
            r.sse_done_marker is None,
            r.sse_max_line_bytes == DEFAULT_SSE_MAX_LINE_BYTES,
            r.sse_max_frame_bytes == DEFAULT_SSE_MAX_FRAME_BYTES,
            r.log_redaction@ == no_redaction_rules(),
            client_options_problem(r) is None,
    {
        HttpClientOptions {
            base_url: None,
            default_headers: Vec::new(),
            timeouts: HttpTimeoutOptions::default_options(),
            proxy: ProxyOptions::default_options(),
            logging: HttpLoggingOptions::default(),
            error_response_preview_limit: DEFAULT_ERROR_RESPONSE_PREVIEW_LIMIT_BYTES,
            response_body_size_limit: DEFAULT_RESPONSE_BODY_SIZE_LIMIT_BYTES,
            user_agent: None,
            max_redirects: None,
            pool_idle_timeout: None,
            pool_max_idle_per_host: None,
            use_env_proxy: false,
            retry: HttpRetryOptions::new(),
            log_redaction: LogRedactionSettings::new(),
            ipv4_only: false,
            sse_json_mode: SseJsonMode::Lenient,
            sse_done_marker: None,
            sse_max_line_bytes: DEFAULT_SSE_MAX_LINE_BYTES,
            sse_max_frame_bytes: DEFAULT_SSE_MAX_FRAME_BYTES,
        }
    }

    /// Builds options from what was read from a client configuration:
    /// starting from [`HttpClientOptions::new`], root values, nested sections,
    /// event-stream settings, log redaction lists and default headers are
    /// applied in that order, and the first problem is reported with its path
    /// resolved under the section it came from. The options are not
    /// validated as a whole.
    pub fn from_config_input(c: HttpClientConfigInput) -> (r: Result<Self, HttpConfigError>)
        ensures
            client_config_problem(c) is Some ==> (r matches Err(e) && client_config_problem(c) == Some(
                e@,
            )),
            r matches Ok(o) ==> client_config_problem(c) is None && client_options_match(o, c),
            client_config_problem(c) is None && !json_headers_used(c.default_headers) ==> (r matches Ok(
                o,
            ) && header_list_view(o.default_headers@) == header_list_from(
                subkey_entries(c.default_headers),
            )),
            client_config_problem(c) is None && json_headers_used(c.default_headers) ==> exists|
                es: HeaderList,
            |
                enumerates(es, json_headers_map(c.default_headers)) && #[trigger] json_headers_outcome(
                    c.path@,
                    es,
                    headers_result(r),
                ),
    {
        let HttpClientConfigInput {
            path,
            root,
            timeouts,
            proxy,
            logging,
            retry,
            sse,
            log_redaction,
            default_headers,
        } = c;
        let root = match root {
            Ok(r) => r,
            Err(e) => return Err(resolve_config_error(path.as_str(), e)),
        };
        let mut opts = match options_from_root(&root) {
            Ok(o) => o,
            Err(e) => return Err(resolve_config_error(path.as_str(), e)),
        };
        if let Some(t) = timeouts {
            match t {
                Ok(t) => opts.timeouts = t,
                Err(e) => {
                    let section = join_config_path(path.as_str(), "timeouts");
                    return Err(resolve_config_error(section.as_str(), e));
                },
            }
        }
        if let Some(p) = proxy {
            match p {
                Ok(p) => opts.proxy = p,
                Err(e) => {
                    let section = join_config_path(path.as_str(), "proxy");
                    return Err(resolve_config_error(section.as_str(), e));
                },
            }
        }
        if let Some(l) = logging {
            match l {
                Ok(l) => opts.logging = l,
                Err(e) => {
                    let section = join_config_path(path.as_str(), "logging");
                    return Err(resolve_config_error(section.as_str(), e));
                },
            }
        }
        if let Some(x) = retry {
            match x {
                Ok(x) => opts.retry = x,
                Err(e) => {
                    let section = join_config_path(path.as_str(), "retry");
                    return Err(resolve_config_error(section.as_str(), e));
                },
            }
        }
        if let Some(x) = sse {
            let section = join_config_path(path.as_str(), "sse");
            let sse = match x {
                Ok(v) => v,
                Err(e) => return Err(resolve_config_error(section.as_str(), e)),
            };
            match sse_settings(&sse) {
                Ok((mode, marker, line, frame)) => {
                    opts.sse_json_mode = mode;
                    opts.sse_done_marker = marker;
                    opts.sse_max_line_bytes = line;
                    opts.sse_max_frame_bytes = frame;
                },
                Err(e) => return Err(resolve_config_error(section.as_str(), e)),
            }
        }
        if let Some(x) = log_redaction {
            let section = join_config_path(path.as_str(), "log_redaction");
            let l = match x {
                Ok(v) => v,
                Err(e) => return Err(resolve_config_error(section.as_str(), e)),
            };
            match log_redaction_from_config_input(l) {
                Ok(settings) => opts.log_redaction = settings,
                Err(e) => return Err(resolve_config_error(section.as_str(), e)),
            }
        }
        opts.default_headers = default_headers_from_config(path.as_str(), default_headers)?;
        Ok(opts)
    }

    /// `self` and `other` agree on every setting but the default headers.
    pub open spec fn same_but_headers(self, other: HttpClientOptions) -> bool {
        &&& self.base_url == other.base_url
        &&& self.timeouts == other.timeouts
        &&& self.proxy == other.proxy
        &&& self.logging == other.logging
        &&& self.error_response_preview_limit == other.error_response_preview_limit
        &&& self.response_body_size_limit == other.response_body_size_limit
        &&& self.user_agent == other.user_agent
        &&& self.max_redirects == other.max_redirects
        &&& self.pool_idle_timeout == other.pool_idle_timeout
        &&& self.pool_max_idle_per_host == other.pool_max_idle_per_host
        &&& self.use_env_proxy == other.use_env_proxy
        &&& self.retry == other.retry
        &&& self.log_redaction == other.log_redaction
        &&& self.ipv4_only == other.ipv4_only
        &&& self.sse_json_mode == other.sse_json_mode
        &&& self.sse_done_marker == other.sse_done_marker
        &&& self.sse_max_line_bytes == other.sse_max_line_bytes
        &&& self.sse_max_frame_bytes == other.sse_max_frame_bytes
    }

    /// Validates one default header and sets it: a later value for the same
    /// name replaces the earlier one. On a bad name or value the error of
    /// kind `Other` names it and nothing changes.
    pub fn add_header(&mut self, name: &str, value: &str) -> (r: Result<(), HttpError>)
        ensures
            match r {
                Ok(()) => header_pair_problem(name@, value@) is None && header_list_view(
                    final(self).default_headers@,
                ) == header_list_insert(
                    header_list_view(old(self).default_headers@),
                    header_name_canonical(name@),
                    value@,
                ),
                Err(e) => header_pair_problem(name@, value@) == Some(e.message@) && e.kind
                    == HttpErrorKind::Other && final(self).default_headers@ == old(
                    self,
                ).default_headers@,
            },
            final(self).same_but_headers(*old(self)),
    {
        let (n, v) = parse_header(name, value)?;
        insert_header(&mut self.default_headers, n, v);
        Ok(())
    }

    /// Validates a batch of default headers as a whole and sets each in
    /// turn; if any pair is bad, none is set and the error names the first
    /// bad one.
    pub fn add_headers(&mut self, headers: &[(&str, &str)]) -> (r: Result<(), HttpError>)
        ensures
            match r {
                Ok(()) => first_pair_problem(header_pairs_view(headers@)) is None && header_list_view(
                    final(self).default_headers@,
                ) == header_list_set_all(
                    header_list_view(old(self).default_headers@),
                    canonical_pairs(header_pairs_view(headers@)),
                ),
                Err(e) => first_pair_problem(header_pairs_view(headers@)) == Some(e.message@)
                    && e.kind == HttpErrorKind::Other && final(self).default_headers@ == old(
                    self,
                ).default_headers@,
            },
            final(self).same_but_headers(*old(self)),
    {
        let parsed = parse_headers(headers)?;
        set_headers(&mut self.default_headers, parsed);
        Ok(())
    }

    /// Parses and sets the base URL used to resolve relative request paths;
    /// on error the options are unchanged.
    pub fn set_base_url(&mut self, base_url: &str) -> (r: Result<(), HttpConfigError>)
        ensures
            match r {
                Ok(()) => url_parse_outcome(base_url@) matches Ok(u) && final(self).base_url
                    matches Some(b) && b@ == u,
                Err(e) => url_parse_outcome(base_url@) is Err && e@ == (
                    HttpConfigErrorKind::InvalidValue,
                    "base_url"@,
                    "Invalid URL: "@ + url_parse_outcome(base_url@)->Err_0,
                ) && final(self).base_url == old(self).base_url,
            },
            final(self).default_headers == old(self).default_headers,
            final(self).timeouts == old(self).timeouts,
            final(self).user_agent == old(self).user_agent,
    {
        let parsed = parse_base_url(base_url)?;
        self.base_url = Some(parsed);
        Ok(())
    }

    /// Validates every section and limit; the error names the first problem
    /// (see [`client_options_problem`]).
    pub fn validate(&self) -> (r: Result<(), HttpConfigError>)
        ensures
            match r {
                Ok(()) => client_options_problem(*self) is None,
                Err(e) => client_options_problem(*self) == Some(e@),
            },
    {
        if let Err(e) = self.timeouts.validate() {
            return Err(prefix_error_path("timeouts", e));
        }
        self.proxy.validate()?;
        self.logging.validate()?;
        if let Err(e) = self.retry.validate() {
            return Err(prefix_error_path("retry", e));
        }
        validate_positive_limit("error_response_preview_limit", self.error_response_preview_limit)?;
        validate_positive_limit("response_body_size_limit", self.response_body_size_limit)?;
        if let Some(user_agent) = &self.user_agent {
            if trim(user_agent.as_str()).unicode_len() == 0 {
                return Err(HttpConfigError::invalid_value("user_agent", "Value cannot be empty"));
            }
            if !is_valid_header_value(user_agent.as_str()) {
                return Err(
                    HttpConfigError::invalid_value(
                        "user_agent",
                        "Invalid header value: failed to parse header value",
                    ),
                );
            }
        }
        validate_positive_limit("sse.max_line_bytes", self.sse_max_line_bytes)?;
        validate_positive_limit("sse.max_frame_bytes", self.sse_max_frame_bytes)?;
        Ok(())
    }
}

/// Resolving an error path under a section a second time changes nothing:
/// a resolved path already lies within the section.
pub proof fn law_resolve_config_error_idempotent(section: Seq<char>, path: Seq<char>)
    ensures
        resolved_error_path(section, resolved_error_path(section, path)) == resolved_error_path(
            section,
            path,
        ),
{
    let r = resolved_error_path(section, path);
    if path.len() == 0 {
    } else if section.len() == 0 || path_within(path, section) {
    } else {
        reveal_strlit(".");
        assert(r.take(section.len() as int) =~= section);
        assert(r[section.len() as int] == '.');
        assert(path_within(r, section));
    }
}

/// Resolves an error raised by the reader at `section_path` to a root path
/// the way the client factory does: an empty path is the section itself,
/// any other path is resolved under the section.
pub fn factory_resolve_config_error(section_path: &str, error: HttpConfigError) -> (r: HttpConfigError)
    ensures
        r@ == (
            error@.0,
            if error@.1.len() == 0 {
                section_path@
            } else {
                join_path(section_path@, error@.1)
            },
            error@.2,
        ),
{
    let HttpConfigError { path, message, kind } = error;
    let new_path = if path.as_str().unicode_len() == 0 {
        section_path.to_owned()
    } else {
        join_config_path(section_path, path.as_str())
    };
    HttpConfigError { path: new_path, message, kind }
}

/// The path of an error raised by component `component`, relative to the
/// component's parent: a leading `component.` is removed.
pub open spec fn component_relative_path(path: Seq<char>, component: Seq<char>) -> Seq<char> {
    let prefix = component + "."@;
    if starts_with_seq(path, prefix) {
        path.skip(prefix.len() as int)
    } else {
        path
    }
}

/// Resolves an error raised by a nested component to a root path under the
/// reader at `section_path`: the component's own prefix is removed, then the
/// path is resolved under the section.
pub fn resolve_component_error(section_path: &str, error: HttpConfigError, component: &str) -> (r:
    HttpConfigError)
    ensures
        r@ == (
            error@.0,
            join_path(section_path@, component_relative_path(error@.1, component@)),
            error@.2,
        ),
{
    let HttpConfigError { path, message, kind } = error;
    let mut prefix = component.to_owned();
    push_str(&mut prefix, ".");
    let p = path.as_str();
    let relative = if str_starts_with(p, prefix.as_str()) {
        p.substring_char(prefix.as_str().unicode_len(), p.unicode_len())
    } else {
        p
    };
    let new_path = join_config_path(section_path, relative);
    HttpConfigError { path: new_path, message, kind }
}


impl Default for HttpClientOptions {
    /// Same as [`HttpClientOptions::new`]: defaults that pass validation.
    fn default() -> (r: Self)
        ensures
            r.base_url is None,
            r.default_headers@.len() == 0,
            r.timeouts == HttpTimeoutOptions::default_options_spec(),
            r.logging == default_logging_options(),
            !r.retry.enabled,
            client_options_problem(r) is None,
    {
        Self::new()
    }
}

} // verus!
