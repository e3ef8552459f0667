//! Reading a streamed response body chunk by chunk: what each outcome of a
//! read means for the stream.
use vstd::prelude::*;

use super::retry_errors::{span_debug, span_debug_text};
use crate::error::backend_error_mapper::{backend_error_kind, map_backend_error, ReqwestErrorPhase};
use crate::error::http_error::HttpError;
use crate::error::http_error_kind::HttpErrorKind;
use crate::options::proxy_options::opt_view;
use crate::text::push_str;
use crate::time_span::TimeSpan;

verus! {

/// The outcome of waiting for the next chunk of a streamed body.
#[derive(Debug, Clone, Copy, PartialEq, Eq, Structural)]
pub enum StreamReadEvent {
    /// The request's cancellation token fired.
    Cancelled,
    /// A chunk arrived.
    Chunk,
    /// Reading failed; whether the transport reported a timeout, and whether
    /// it reported a redirect that left the allowed origin.
    Failed { is_timeout: bool, origin_violation: bool },
    /// The body ended.
    Ended,
    /// No chunk arrived within the read timeout.
    TimedOut,
}

/// What the stream does next.
pub enum StreamReadAction {
    /// Hand the chunk to the reader and wait for the next one.
    Yield,
    /// Hand this error to the reader and end the stream.
    Fail(HttpError),
    /// End the stream.
    Finish,
}

/// `e` names the request `method url` and carries no other context: no
/// status, body preview, `Retry-After`, retry diagnostics, source or
/// redaction settings.
pub open spec fn names_request(e: HttpError, method: Seq<char>, url: Seq<char>) -> bool {
    &&& opt_view(e.method) == Some(method) && opt_view(e.url) == Some(url)
    &&& e.status is None && e.response_body_preview is None && e.retry_after is None
    &&& e.retry_diagnostics is None && e.source is None && e.log_redaction is None
}

/// Decides what a read outcome means: chunks are passed on; the end ends the
/// stream; cancellation, a read failure (classified as a read-phase
/// transport error) or a read timeout end it with an error naming the
/// request.
pub fn stream_read_step(event: StreamReadEvent, read_timeout: TimeSpan, method: &str, url: &str) -> (r:
    StreamReadAction)
    ensures
        match event {
            StreamReadEvent::Chunk => r is Yield,
            StreamReadEvent::Ended => r is Finish,
            StreamReadEvent::Cancelled => r matches StreamReadAction::Fail(e) && e.kind
                == HttpErrorKind::Cancelled && e.message@
                == "Streaming response cancelled while reading body"@ && names_request(
                e,
                method@,
                url@,
            ),
            StreamReadEvent::Failed { is_timeout, origin_violation } => r matches StreamReadAction::Fail(
                e,
            ) && e.kind == backend_error_kind(
                is_timeout,
                origin_violation,
                ReqwestErrorPhase::Read,
                HttpErrorKind::Transport,
            ) && e.message@ == "HTTP transport request failed"@ && names_request(e, method@, url@),
            StreamReadEvent::TimedOut => r matches StreamReadAction::Fail(e) && e.kind
                == HttpErrorKind::ReadTimeout && e.message@ == "Read timeout after "@ + span_debug(
                read_timeout,
            ) + " while streaming response"@ && names_request(e, method@, url@),
        },
{
    match event {
        StreamReadEvent::Chunk => StreamReadAction::Yield,
        StreamReadEvent::Ended => StreamReadAction::Finish,
        StreamReadEvent::Cancelled => StreamReadAction::Fail(
            HttpError::cancelled("Streaming response cancelled while reading body").with_method(method).with_url(
                url,
            ),
        ),
        StreamReadEvent::Failed { is_timeout, origin_violation } => StreamReadAction::Fail(
            map_backend_error(
                is_timeout,
                origin_violation,
                HttpErrorKind::Transport,
                ReqwestErrorPhase::Read,
                method,
                url,
            ),
        ),
        StreamReadEvent::TimedOut => {
            let mut message = "Read timeout after ".to_owned();
            push_str(&mut message, span_debug_text(read_timeout).as_str());
            push_str(&mut message, " while streaming response");
            StreamReadAction::Fail(
                HttpError::with_message(HttpErrorKind::ReadTimeout, message).with_method(method).with_url(url),
            )
        },
    }
}

} // verus!
