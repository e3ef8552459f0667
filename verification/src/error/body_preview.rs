//! Human-readable previews of response and request bodies.
use vstd::prelude::*;
use vstd::utf8::{decode_utf8, valid_utf8};

use crate::text::{decimal_string, decimal_text, utf8_text};

verus! {

/// Preview of a captured error body: `<empty>` for no bytes; the UTF-8 text,
/// or `<binary N bytes>` otherwise; followed by `...<truncated>` when bytes
/// were omitted.
pub open spec fn error_body_preview_text(bytes: Seq<u8>, truncated: bool) -> Seq<char> {
    if bytes.len() == 0 {
        "<empty>"@
    } else {
        let suffix = if truncated {
            "...<truncated>"@
        } else {
            seq![]
        };
        if valid_utf8(bytes) {
            decode_utf8(bytes) + suffix
        } else {
            "<binary "@ + decimal_text(bytes.len()) + " bytes>"@ + suffix
        }
    }
}

/// Renders a human-readable error-body preview from raw (already bounded)
/// bytes.
pub fn render_error_body_preview(bytes: &[u8], truncated: bool) -> (r: String)
    ensures
        r@ == error_body_preview_text(bytes@, truncated),
{
    if bytes.len() == 0 {
        return "<empty>".to_owned();
    }
    let suffix = if truncated {
        "...<truncated>"
    } else {
        ""
    };
    proof {
        reveal_strlit("");
    }
    let mut out = match utf8_text(bytes) {
        Ok(text) => text.to_owned(),
        Err(_) => {
            let mut out = "<binary ".to_owned();
            out.append(decimal_string(bytes.len() as u64).as_str());
            out.append(" bytes>");
            out
        },
    };
    out.append(suffix);
    proof {
        assert(out@ =~= error_body_preview_text(bytes@, truncated));
    }
    out
}

/// Preview of a body for TRACE logs: `<empty>` for no bytes; otherwise the
/// first `max_bytes` bytes as UTF-8 text, or `<binary N bytes>` (N the whole
/// length) when that prefix is not UTF-8; followed by
/// `...<truncated M bytes>` when `M` bytes were cut.
pub open spec fn log_body_text(body: Seq<u8>, max_bytes: nat) -> Seq<char> {
    if body.len() == 0 {
        "<empty>"@
    } else {
        let limit = if body.len() < max_bytes {
            body.len()
        } else {
            max_bytes
        };
        let prefix = body.take(limit as int);
        let suffix = if body.len() > max_bytes {
            "...<truncated "@ + decimal_text((body.len() - max_bytes) as nat) + " bytes>"@
        } else {
            seq![]
        };
        if valid_utf8(prefix) {
            decode_utf8(prefix) + suffix
        } else {
            "<binary "@ + decimal_text(body.len()) + " bytes>"@ + suffix
        }
    }
}

/// Formats up to `max_bytes` of `body` for TRACE output, marking truncation
/// and binary data.
pub fn render_body(body: &[u8], max_bytes: usize) -> (r: String)
    ensures
        r@ == log_body_text(body@, max_bytes as nat),
{
    let len = body.len();
    if len == 0 {
        return "<empty>".to_owned();
    }
    let limit = if len < max_bytes {
        len
    } else {
        max_bytes
    };
    let prefix = vstd::slice::slice_subrange(body, 0, limit);
    assert(prefix@ =~= body@.take(limit as int));
    let mut suffix = String::new();
    if len > max_bytes {
        suffix.append("...<truncated ");
        suffix.append(decimal_string((len - max_bytes) as u64).as_str());
        suffix.append(" bytes>");
    }
    let mut out = match utf8_text(prefix) {
        Ok(text) => text.to_owned(),
        Err(_) => {
            let mut out = "<binary ".to_owned();
            out.append(decimal_string(len as u64).as_str());
            out.append(" bytes>");
            out
        },
    };
    out.append(suffix.as_str());
    proof {
        assert(out@ =~= log_body_text(body@, max_bytes as nat));
    }
    out
}

} // verus!
