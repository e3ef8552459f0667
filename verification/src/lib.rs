//! Verified core of an HTTP client toolkit: option validation, retry and
//! reconnect decisions, error classification, header parsing and log masking.
use vstd::prelude::*;

pub mod client;
pub mod constants;
pub mod content_type;
pub mod error;
pub mod header;
pub mod logging;
pub mod options;
pub mod redact;
pub mod response;
pub mod text;
pub mod time_span;

pub use logging::masker::mask_header_value;
pub use options::sensitive_headers::SensitiveHeaders;
