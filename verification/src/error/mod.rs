//! The unified error model: error kinds, retry hints, retry diagnostics and
//! captured non-success responses.

pub mod backend_error_mapper;
pub mod body_preview;
pub mod http_error;
pub mod http_error_kind;
pub mod http_retry_diagnostics;
pub mod http_retry_termination;
pub mod http_status_response;
pub mod retry_after;
pub mod retry_hint;
