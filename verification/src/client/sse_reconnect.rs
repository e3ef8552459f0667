//! Reconnect decisions for server-sent event streams: when a failed or
//! finished stream is opened again, after which delay, and with which
//! `Last-Event-ID`.
use vstd::prelude::*;

use crate::error::http_error::{retry_hint_of, HttpError};
use crate::error::http_error_kind::HttpErrorKind;
use crate::error::retry_hint::RetryHint;
use crate::header::{header_value_ok, is_valid_header_value};
use crate::text::{texts, contains_ignore_ascii_case, contains_ignore_ascii_case_seq, push_str};
use crate::time_span::TimeSpan;

verus! {

/// The header carrying the id of the last event seen.
pub open spec fn last_event_id_header_name() -> Seq<char> {
    "last-event-id"@
}

/// Reconnect limits and delay policy of an event stream.
#[derive(Debug, Clone, Copy, PartialEq, Eq, Structural)]
pub struct SseReconnectOptions {
    /// Maximum reconnects over the life of the stream.
    pub max_reconnects: u32,
    /// Delay before a reconnect, until the server sets another.
    pub reconnect_delay: TimeSpan,
    /// Whether a cleanly ended stream is reconnected.
    pub reconnect_on_eof: bool,
    /// Whether an event's `retry` field replaces the delay.
    pub honor_server_retry: bool,
}

/// The lower-case text that marks an unexpected end of input.
pub open spec fn unexpected_eof_marker() -> Seq<char> {
    "unexpected eof"@
}

/// Whether an error reports an unexpected end of input: its message, or the
/// display or debug text of its source, contains `unexpected eof` in any
/// ASCII case.
pub open spec fn is_unexpected_eof(message: Seq<char>, source_texts: Seq<Seq<char>>) -> bool {
    contains_ignore_ascii_case_seq(message, unexpected_eof_marker()) || exists|i: int|
        0 <= i < source_texts.len() && #[trigger] contains_ignore_ascii_case_seq(
            source_texts[i],
            unexpected_eof_marker(),
        )
}

/// Whether a stream error warrants a reconnect: never a cancellation;
/// otherwise a retryable error or an unexpected end of input.
pub open spec fn reconnectable(error: HttpError, source_texts: Seq<Seq<char>>) -> bool {
    error.kind != HttpErrorKind::Cancelled && (retry_hint_of(error.kind, error.status)
        == RetryHint::Retryable || is_unexpected_eof(error.message@, source_texts))
}

/// A cancellation is never reconnected. Any other error classified
/// retryable is reconnected whatever its message says, so a status error of
/// `429` or of `500` through `599` is; an error that is neither retryable
/// nor an unexpected end of input is not.
pub proof fn law_reconnect_follows_retry_hint(error: HttpError, source_texts: Seq<Seq<char>>)
    ensures
        error.kind == HttpErrorKind::Cancelled ==> !reconnectable(error, source_texts),
        error.kind != HttpErrorKind::Cancelled && retry_hint_of(error.kind, error.status)
            == RetryHint::Retryable ==> reconnectable(error, source_texts),
        (error.kind == HttpErrorKind::Status && error.status is Some && (error.status->0 == 429 || (
            500 <= error.status->0 && error.status->0 <= 599))) ==> reconnectable(error, source_texts),
        retry_hint_of(error.kind, error.status) == RetryHint::NonRetryable && !is_unexpected_eof(
            error.message@,
            source_texts,
        ) ==> !reconnectable(error, source_texts),
{
}

/// Whether `error`, with the display and debug texts of its source, reports
/// an unexpected end of input.
pub fn is_unexpected_eof_error(error: &HttpError, source_texts: &[String]) -> (r: bool)
    ensures
        r == is_unexpected_eof(error.message@, texts(source_texts@)),
{
    if contains_ignore_ascii_case(error.message.as_str(), "unexpected eof") {
        return true;
    }
    let ghost ts = texts(source_texts@);
    let mut i: usize = 0;
    while i < source_texts.len()
        invariant
            i <= source_texts@.len(),
            ts == texts(source_texts@),
            ts.len() == source_texts@.len(),
            forall|k: int| 0 <= k < i ==> !#[trigger] contains_ignore_ascii_case_seq(ts[k], unexpected_eof_marker()),
        decreases source_texts@.len() - i,
    {
        assert(ts[i as int] == source_texts@[i as int]@);
        if contains_ignore_ascii_case(source_texts[i].as_str(), "unexpected eof") {
            return true;
        }
        i = i + 1;
    }
    false
}

/// Whether a stream error warrants a reconnect (see [`reconnectable`]).
pub fn should_reconnect_sse_error(error: &HttpError, source_texts: &[String]) -> (r: bool)
    ensures
        r == reconnectable(*error, texts(source_texts@)),
{
    if error.kind == HttpErrorKind::Cancelled {
        return false;
    }
    match error.retry_hint() {
        RetryHint::Retryable => true,
        RetryHint::NonRetryable => is_unexpected_eof_error(error, source_texts),
    }
}

/// The state a reconnecting stream carries across connections.
#[derive(Debug)]
pub struct SseReconnectState {
    /// Reconnects made so far.
    pub reconnect_count: u32,
    /// Delay before the next reconnect.
    pub reconnect_delay: TimeSpan,
    /// Id of the last event that carried one.
    pub last_event_id: Option<String>,
}

impl SseReconnectState {
    /// No reconnect yet, the configured delay, no event id.
    pub fn new(options: &SseReconnectOptions) -> (r: Self)
        ensures
            r.reconnect_count == 0,
            r.reconnect_delay == options.reconnect_delay,
            r.last_event_id is None,
    {
        SseReconnectState { reconnect_count: 0, reconnect_delay: options.reconnect_delay, last_event_id: None }
    }

    /// Records a received event: its id, when it has one, becomes the last
    /// event id; its `retry` field (at least 1 ms), when present and honored,
    /// becomes the reconnect delay.
    pub fn on_event(&mut self, options: &SseReconnectOptions, id: Option<String>, retry_ms: Option<u64>)
        ensures
            final(self).reconnect_count == old(self).reconnect_count,
            final(self).last_event_id == match id {
                Some(v) => Some(v),
                None => old(self).last_event_id,
            },
            final(self).reconnect_delay@ == if options.honor_server_retry && retry_ms is Some {
                (if retry_ms->0 == 0 { 1 } else { retry_ms->0 as nat }) * 1_000_000
            } else {
                old(self).reconnect_delay@
            },
    {
        if let Some(v) = id {
            self.last_event_id = Some(v);
        }
        if options.honor_server_retry {
            if let Some(ms) = retry_ms {
                self.reconnect_delay = TimeSpan::from_millis_at_least_one(ms);
            }
        }
    }

    /// Decides after a failed connection or stream: `true` (sleep for the
    /// current delay, then reconnect) when the error warrants a reconnect and
    /// the budget is not spent, counting the reconnect; else `false` (report
    /// the error and stop).
    pub fn on_failure(
        &mut self,
        options: &SseReconnectOptions,
        error: &HttpError,
        source_texts: &[String],
    ) -> (r: bool)
        ensures
            r == (reconnectable(*error, texts(source_texts@)) && old(self).reconnect_count
                < options.max_reconnects),
            final(self).reconnect_count == if r {
                old(self).reconnect_count + 1
            } else {
                old(self).reconnect_count as int
            },
            final(self).reconnect_delay == old(self).reconnect_delay,
            final(self).last_event_id == old(self).last_event_id,
    {
        if should_reconnect_sse_error(error, source_texts) && self.reconnect_count < options.max_reconnects {
            self.reconnect_count = self.reconnect_count + 1;
            true
        } else {
            false
        }
    }

    /// Decides after a stream ended cleanly: `true` (sleep, then reconnect)
    /// when clean ends are reconnected and the budget is not spent, counting
    /// the reconnect; else `false` (stop).
    pub fn on_end(&mut self, options: &SseReconnectOptions) -> (r: bool)
        ensures
            r == (options.reconnect_on_eof && old(self).reconnect_count < options.max_reconnects),
            final(self).reconnect_count == if r {
                old(self).reconnect_count + 1
            } else {
                old(self).reconnect_count as int
            },
            final(self).reconnect_delay == old(self).reconnect_delay,
            final(self).last_event_id == old(self).last_event_id,
    {
        if options.reconnect_on_eof && self.reconnect_count < options.max_reconnects {
            self.reconnect_count = self.reconnect_count + 1;
            true
        } else {
            false
        }
    }

    /// The `Last-Event-ID` header to send on the next connection: none before
    /// any event id was seen; the id when it is a valid header value; else an
    /// error naming the id.
    pub fn last_event_id_header(&self) -> (r: Option<Result<(String, String), HttpError>>)
        ensures
            match self.last_event_id {
                None => r is None,
                Some(id) => match r {
                    Some(Ok((name, value))) => header_value_ok(id@) && name@ == last_event_id_header_name()
                        && value@ == id@,
                    Some(Err(e)) => !header_value_ok(id@) && e.is_bare(
                        HttpErrorKind::Other,
                        "Invalid Last-Event-ID header value '"@ + id@
                            + "': failed to parse header value"@,
                    ),
                    None => false,
                },
            },
    {
        match &self.last_event_id {
            None => None,
            Some(id) => {
                if is_valid_header_value(id.as_str()) {
                    Some(Ok(("last-event-id".to_owned(), id.clone())))
                } else {
                    let mut message = "Invalid Last-Event-ID header value '".to_owned();
                    push_str(&mut message, id.as_str());
                    push_str(&mut message, "': failed to parse header value");
                    Some(Err(HttpError::with_message(HttpErrorKind::Other, message)))
                }
            },
        }
    }
}

/// The reconnect count after a failure or clean end: one more when a
/// reconnect is wanted and the budget allows it.
pub open spec fn next_reconnect_count(count: u32, max_reconnects: u32, wanted: bool) -> int {
    if wanted && count < max_reconnects {
        count + 1
    } else {
        count as int
    }
}

/// However failures and clean ends follow one another, a stream never
/// reconnects more often than `max_reconnects`.
pub proof fn law_reconnects_bounded(count: u32, max_reconnects: u32, wanted: bool)
    requires
        count <= max_reconnects,
    ensures
        next_reconnect_count(count, max_reconnects, wanted) <= max_reconnects,
{
}

/// The last event id after events carrying `ids`, one update per event as
/// [`SseReconnectState::on_event`] makes it.
pub open spec fn ids_after(initial: Option<Seq<char>>, ids: Seq<Option<Seq<char>>>) -> Option<Seq<char>>
    decreases ids.len(),
{
    if ids.len() == 0 {
        initial
    } else {
        match ids.last() {
            Some(v) => Some(v),
            None => ids_after(initial, ids.drop_last()),
        }
    }
}

/// The `Last-Event-ID` sent on a reconnect is the id of the latest event
/// that carried one (or the earlier id when none did), whatever came between.
pub proof fn law_last_event_id_is_latest(initial: Option<Seq<char>>, ids: Seq<Option<Seq<char>>>, k: int)
    requires
        0 <= k < ids.len(),
        ids[k] is Some,
        forall|j: int| k < j < ids.len() ==> #[trigger] ids[j] is None,
    ensures
        ids_after(initial, ids) == ids[k],
    decreases ids.len(),
{
    if k < ids.len() - 1 {
        assert(ids.drop_last()[k] == ids[k]);
        assert forall|j: int| k < j < ids.drop_last().len() implies #[trigger] ids.drop_last()[j] is None by {
            assert(ids.drop_last()[j] == ids[j]);
        }
        law_last_event_id_is_latest(initial, ids.drop_last(), k);
    }
}

} // verus!
