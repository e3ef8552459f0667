//! Retryability classification for HTTP errors.
use vstd::prelude::*;

verus! {

/// High-level classification from [`crate::error::http_error::HttpError::retry_hint`]
/// for backoff policies.
#[derive(Debug, Clone, Copy, PartialEq, Eq, Structural)]
pub enum RetryHint {
    /// Transient failure (timeouts, some 5xx/429, transport); callers may
    /// retry with care.
    Retryable,
    /// Permanent or non-idempotent failure; do not retry by default.
    NonRetryable,
}

impl RetryHint {
    /// Returns the snake_case name (`retryable` or `non_retryable`).
    pub fn as_str(&self) -> (r: &'static str)
        ensures
            r@ == (match *self {
                RetryHint::Retryable => "retryable"@,
                RetryHint::NonRetryable => "non_retryable"@,
            }),
    {
        match self {
            RetryHint::Retryable => "retryable",
            RetryHint::NonRetryable => "non_retryable",
        }
    }
}

} // verus!
