//! Body previews for logging, the log redactor, and locating and redacting
//! URLs in diagnostic text.

pub mod body_preview;
pub mod log_redactor;
pub mod redacted_debugger;
