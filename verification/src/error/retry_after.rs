//! `Retry-After` header interpretation.
use vstd::prelude::*;

use super::http_error::{is_retryable_status_code, status_is_retryable};
use crate::text::{parse_unsigned, parse_unsigned_bounded, trim, trim_seq};
use crate::time_span::TimeSpan;

verus! {

/// First second (since the Unix epoch) of the year 10000: `httpdate` only
/// accepts dates before it.
pub const HTTP_DATE_SECONDS_LIMIT: u64 = 253402300800;

/// Seconds since the Unix epoch of the HTTP-date `text` (IMF-fixdate, RFC 850
/// or asctime form) as `httpdate::parse_http_date` reads it, or `None` when it
/// rejects the text.
pub uninterp spec fn http_date_unix_seconds(text: Seq<char>) -> Option<u64>;

/// Calls `httpdate::parse_http_date` and expresses the accepted date as whole
/// seconds since the Unix epoch. The crate only accepts valid dates of the
/// years 1970 to 9999, whose seconds lie below [`HTTP_DATE_SECONDS_LIMIT`].
#[verifier::external_body]
fn parse_http_date_seconds(text: &str) -> (r: Option<u64>)
    ensures
        r == http_date_unix_seconds(text@),
        r matches Some(secs) ==> secs < HTTP_DATE_SECONDS_LIMIT,
{
    httpdate::parse_http_date(text).ok().and_then(
        |time| time.duration_since(std::time::UNIX_EPOCH).ok(),
    ).map(|span| span.as_secs())
}

/// Reads the system clock (`std::time::SystemTime::now`) as the time elapsed
/// since the Unix epoch, zero when the clock is set before it. The value
/// depends on the clock, so nothing is promised of it.
#[verifier::external_body]
fn time_since_unix_epoch() -> (r: TimeSpan) {
    let span = std::time::SystemTime::now().duration_since(std::time::UNIX_EPOCH).unwrap_or_default();
    TimeSpan::from_parts(span.as_secs(), span.subsec_nanos())
}

/// The time from `now` (as time since the Unix epoch) until the moment
/// `unix_seconds` after the epoch; zero once that moment has passed.
pub fn delay_until(unix_seconds: u64, now: TimeSpan) -> (r: TimeSpan)
    ensures
        r@ == if unix_seconds * 1_000_000_000 >= now@ {
            (unix_seconds * 1_000_000_000 - now@) as nat
        } else {
            0
        },
{
    TimeSpan::from_secs(unix_seconds).saturating_sub(&now)
}

/// How a `Retry-After` value reads.
#[derive(Debug, Clone, Copy, PartialEq, Eq, Structural)]
pub enum RetryAfterForm {
    /// Delta-seconds.
    Seconds(u64),
    /// An HTTP-date, as seconds since the Unix epoch.
    Date(u64),
    /// Neither (or blank).
    Invalid,
}

/// The reading of a `Retry-After` value: blank text is invalid; unsigned
/// decimal text is delta-seconds; otherwise the text must be an HTTP-date.
pub open spec fn retry_after_form(value: Seq<char>) -> RetryAfterForm {
    let t = trim_seq(value);
    if t.len() == 0 {
        RetryAfterForm::Invalid
    } else if let Some(n) = parse_unsigned(t, u64::MAX as nat) {
        RetryAfterForm::Seconds(n as u64)
    } else if let Some(secs) = http_date_unix_seconds(t) {
        RetryAfterForm::Date(secs)
    } else {
        RetryAfterForm::Invalid
    }
}

/// Classifies a raw `Retry-After` header value.
pub fn classify_retry_after_value(value: &str) -> (r: RetryAfterForm)
    ensures
        r == retry_after_form(value@),
        r matches RetryAfterForm::Date(secs) ==> secs < HTTP_DATE_SECONDS_LIMIT,
{
    let trimmed = trim(value);
    if trimmed.unicode_len() == 0 {
        return RetryAfterForm::Invalid;
    }
    match parse_unsigned_bounded(trimmed, u64::MAX) {
        Some(seconds) => RetryAfterForm::Seconds(seconds),
        None => match parse_http_date_seconds(trimmed) {
            Some(secs) => RetryAfterForm::Date(secs),
            None => RetryAfterForm::Invalid,
        },
    }
}

/// The delay a `Retry-After` value asks for when the clock reads `now`:
/// delta-seconds as they are; an HTTP-date as the time remaining until it
/// (zero once passed); `None` for a value that is neither.
pub open spec fn retry_after_delay(value: Seq<char>, now: nat) -> Option<nat> {
    match retry_after_form(value) {
        RetryAfterForm::Seconds(n) => Some((n * 1_000_000_000) as nat),
        RetryAfterForm::Date(secs) => Some(
            if secs * 1_000_000_000 >= now {
                (secs * 1_000_000_000 - now) as nat
            } else {
                0
            },
        ),
        RetryAfterForm::Invalid => None,
    }
}

/// Parses a `Retry-After` header value when the clock reads `now` (see
/// [`retry_after_delay`]).
pub fn parse_retry_after_value_at(value: &str, now: TimeSpan) -> (r: Option<TimeSpan>)
    ensures
        match r {
            Some(d) => retry_after_delay(value@, now@) == Some(d@),
            None => retry_after_delay(value@, now@) is None,
        },
{
    match classify_retry_after_value(value) {
        RetryAfterForm::Seconds(seconds) => Some(TimeSpan::from_secs(seconds)),
        RetryAfterForm::Date(secs) => Some(delay_until(secs, now)),
        RetryAfterForm::Invalid => None,
    }
}

/// Parses a `Retry-After` header value as delta-seconds or HTTP-date. A date
/// yields the time remaining until it (zero once passed), measured from the
/// system clock's current reading.
pub fn parse_retry_after_value(value: &str) -> (r: Option<TimeSpan>)
    ensures
        r is None <==> retry_after_form(value@) == RetryAfterForm::Invalid,
        retry_after_form(value@) matches RetryAfterForm::Seconds(n) ==> r matches Some(d) && d@ == n
            * 1_000_000_000,
        retry_after_form(value@) matches RetryAfterForm::Date(secs) ==> r matches Some(d) && d@ <= secs
            * 1_000_000_000,
{
    let now = time_since_unix_epoch();
    parse_retry_after_value_at(value, now)
}

/// Returns whether a status code honours `Retry-After`: `429` and `5xx`.
pub fn is_retry_after_applicable_status(status: u16) -> (r: bool)
    ensures
        r == is_retryable_status_code(status),
{
    status_is_retryable(status)
}

/// Parses `Retry-After` for a response with `status`, given the header's text
/// (absent when the header is missing or not visible ASCII).
pub fn parse_retry_after(status: u16, header_value: Option<&str>) -> (r: Option<TimeSpan>)
    ensures
        !is_retryable_status_code(status) ==> r is None,
        header_value is None ==> r is None,
        is_retryable_status_code(status) && header_value is Some ==> (r is None
            <==> retry_after_form(header_value->0@) == RetryAfterForm::Invalid),
        is_retryable_status_code(status) && header_value is Some ==> (retry_after_form(
            header_value->0@,
        ) matches RetryAfterForm::Seconds(n) ==> r matches Some(d) && d@ == n * 1_000_000_000),
{
    if !is_retry_after_applicable_status(status) {
        return None;
    }
    match header_value {
        Some(value) => parse_retry_after_value(value),
        None => None,
    }
}

} // verus!
