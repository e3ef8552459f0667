//! Which cancellation token governs the I/O of one attempt.
use vstd::prelude::*;

verus! {

/// Per-attempt execution context. Cancellation tokens are identified by
/// their source: two tokens with the same source id cancel together.
#[derive(Debug, Clone, Copy, PartialEq, Eq, Structural)]
pub struct HttpAttemptExecutionContext {
    /// Source of the token owned by the surrounding retry flow, if any.
    pub retry_flow_token: Option<u64>,
}

impl HttpAttemptExecutionContext {
    /// A direct request outside any retry flow.
    pub fn direct() -> (r: Self)
        ensures
            r.retry_flow_token is None,
    {
        HttpAttemptExecutionContext { retry_flow_token: None }
    }

    /// An attempt of a retry flow that took over the request's token.
    pub fn retry(request_token: Option<u64>) -> (r: Self)
        ensures
            r.retry_flow_token == request_token,
    {
        HttpAttemptExecutionContext { retry_flow_token: request_token }
    }

    /// Whether the request's current token is the retry flow's own.
    pub open spec fn owns(&self, request_token: Option<u64>) -> bool {
        self.retry_flow_token is Some && request_token == self.retry_flow_token
    }

    /// Whether the request's current token shares its source with the retry
    /// flow's token.
    pub fn retry_flow_owns_current_token(&self, request_token: Option<u64>) -> (r: bool)
        ensures
            r == self.owns(request_token),
    {
        match (self.retry_flow_token, request_token) {
            (Some(flow), Some(current)) => flow == current,
            _ => false,
        }
    }

    /// Whether the retry flow's token is put back on the response.
    pub fn should_restore_retry_flow_token(&self, request_token: Option<u64>) -> (r: bool)
        ensures
            r == self.owns(request_token),
    {
        self.retry_flow_owns_current_token(request_token)
    }

    /// The token that cancels this attempt's I/O: none when the retry flow
    /// owns the request's token (the flow cancels instead), else the
    /// request's own token.
    pub fn io_cancellation_token(&self, request_token: Option<u64>) -> (r: Option<u64>)
        ensures
            r == if self.owns(request_token) {
                None
            } else {
                request_token
            },
    {
        if self.retry_flow_owns_current_token(request_token) {
            None
        } else {
            request_token
        }
    }
}

} // verus!
