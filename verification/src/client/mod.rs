//! Client-side decisions: factory planning, URL resolution, retry outcomes,
//! reconnects and per-attempt cancellation.

pub mod attempt_context;
pub mod http_client_factory;
pub mod http_logger;
pub mod response_checks;
pub mod retry_errors;
pub mod retry_flow;
pub mod sse_reconnect;
pub mod stream_reader;
pub mod url_resolution;
