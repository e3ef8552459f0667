//! Diagnostics attached to the final error of a retry flow.
use vstd::prelude::*;

pub use super::http_retry_termination::HttpRetryTermination;
use crate::time_span::TimeSpan;

verus! {

/// Stable diagnostics attached to the final HTTP error of a retry flow.
#[derive(Debug, Clone, Copy, PartialEq, Eq, Structural)]
pub struct HttpRetryDiagnostics {
    attempts: u32,
    elapsed: TimeSpan,
    termination: HttpRetryTermination,
}

impl HttpRetryDiagnostics {
    /// Attempts recorded in the snapshot.
    pub closed spec fn spec_attempts(&self) -> u32 {
        self.attempts
    }

    /// Elapsed time recorded in the snapshot.
    pub closed spec fn spec_elapsed(&self) -> TimeSpan {
        self.elapsed
    }

    /// Termination recorded in the snapshot.
    pub closed spec fn spec_termination(&self) -> HttpRetryTermination {
        self.termination
    }

    /// Creates retry diagnostics from the completed flow counters.
    pub fn new(attempts: u32, elapsed: TimeSpan, termination: HttpRetryTermination) -> (r: Self)
        ensures
            r.spec_attempts() == attempts,
            r.spec_elapsed() == elapsed,
            r.spec_termination() == termination,
    {
        HttpRetryDiagnostics { attempts, elapsed, termination }
    }

    /// Returns the number of attempts made by the retry flow.
    pub fn attempts(&self) -> (r: u32)
        ensures
            r == self.spec_attempts(),
    {
        self.attempts
    }

    /// Returns the elapsed duration of the retry flow.
    pub fn elapsed(&self) -> (r: TimeSpan)
        ensures
            r == self.spec_elapsed(),
    {
        self.elapsed
    }

    /// Returns the reason the retry flow terminated.
    pub fn termination(&self) -> (r: HttpRetryTermination)
        ensures
            r == self.spec_termination(),
    {
        self.termination
    }
}

} // verus!
