//! Limits and JSON handling for decoding server-sent event streams.
use vstd::prelude::*;

use crate::constants::{DEFAULT_SSE_MAX_FRAME_BYTES, DEFAULT_SSE_MAX_LINE_BYTES};

verus! {

/// How JSON payloads in an event stream are treated when they do not parse.
#[derive(Debug, Clone, Copy, PartialEq, Eq, Structural)]
pub enum SseJsonMode {
    /// Frames whose payload is not valid JSON are skipped.
    Lenient,
    /// A payload that is not valid JSON ends the stream with an error.
    Strict,
}

/// Decoding options for an event stream: JSON mode and the byte limits of one
/// line and of one frame.
#[derive(Debug, Clone, Copy, PartialEq, Eq, Structural)]
pub struct SseDecodeOptions {
    /// JSON handling mode.
    pub json_mode: SseJsonMode,
    /// Maximum bytes of one line.
    pub max_line_bytes: usize,
    /// Maximum bytes of one frame.
    pub max_frame_bytes: usize,
}

/// `v`, raised to at least one.
pub open spec fn at_least_one(v: usize) -> usize {
    if v == 0 {
        1
    } else {
        v
    }
}

impl SseDecodeOptions {
    /// Builds options; a zero limit is raised to one byte.
    pub fn new(json_mode: SseJsonMode, max_line_bytes: usize, max_frame_bytes: usize) -> (r: Self)
        ensures
            r == (SseDecodeOptions {
                json_mode,
                max_line_bytes: at_least_one(max_line_bytes),
                max_frame_bytes: at_least_one(max_frame_bytes),
            }),
            r.max_line_bytes >= 1 && r.max_frame_bytes >= 1,
    {
        SseDecodeOptions {
            json_mode,
            max_line_bytes: if max_line_bytes == 0 { 1 } else { max_line_bytes },
            max_frame_bytes: if max_frame_bytes == 0 { 1 } else { max_frame_bytes },
        }
    }
}

impl Default for SseDecodeOptions {
    /// Lenient JSON, 64 KiB lines and 1 MiB frames.
    fn default() -> (r: Self)
        ensures
            r == (SseDecodeOptions {
                json_mode: SseJsonMode::Lenient,
                max_line_bytes: DEFAULT_SSE_MAX_LINE_BYTES,
                max_frame_bytes: DEFAULT_SSE_MAX_FRAME_BYTES,
            }),
    {
        SseDecodeOptions {
            json_mode: SseJsonMode::Lenient,
            max_line_bytes: DEFAULT_SSE_MAX_LINE_BYTES,
            max_frame_bytes: DEFAULT_SSE_MAX_FRAME_BYTES,
        }
    }
}

} // verus!
