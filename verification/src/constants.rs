//! Crate-wide defaults and fixed tuning values.
use vstd::prelude::*;

verus! {

/// Default connect timeout in seconds.
pub const DEFAULT_CONNECT_TIMEOUT_SECS: u64 = 10;

/// Default read timeout in seconds.
pub const DEFAULT_READ_TIMEOUT_SECS: u64 = 120;

/// Default write timeout in seconds.
pub const DEFAULT_WRITE_TIMEOUT_SECS: u64 = 120;

/// Default maximum body bytes included in TRACE log previews.
pub const DEFAULT_LOG_BODY_SIZE_LIMIT_BYTES: usize = 16384;

/// Default maximum bytes included in non-success response body previews.
pub const DEFAULT_ERROR_RESPONSE_PREVIEW_LIMIT_BYTES: usize = 16384;

/// Default maximum bytes aggregated when a response body is read whole.
pub const DEFAULT_RESPONSE_BODY_SIZE_LIMIT_BYTES: usize = 16777216;

/// Default maximum bytes allowed for a single SSE line.
pub const DEFAULT_SSE_MAX_LINE_BYTES: usize = 65536;

/// Default maximum bytes allowed for one SSE frame.
pub const DEFAULT_SSE_MAX_FRAME_BYTES: usize = 1048576;

/// Sensitive values with at most this many characters are fully masked.
pub const SENSITIVE_HEADER_MASK_SHORT_LEN: usize = 4;

/// Characters kept visible at each edge of a longer sensitive value.
pub const SENSITIVE_HEADER_MASK_EDGE_CHARS: usize = 2;

/// The text that replaces the hidden part of a sensitive value.
pub open spec fn mask_placeholder_seq() -> Seq<char> {
    seq!['*', '*', '*', '*']
}

/// Returns the mask placeholder `****`.
pub fn mask_placeholder() -> (r: &'static str)
    ensures
        r@ == mask_placeholder_seq(),
{
    let r = "****";
    proof {
        reveal_strlit("****");
    }
    assert(r@ =~= mask_placeholder_seq());
    r
}

} // verus!
