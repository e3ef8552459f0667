//! Client configuration: options, their validation, and configuration errors.

pub mod config_keys;
pub mod http_client_options;
pub mod http_config_error;
pub mod http_config_error_kind;
pub mod http_origin_policy;
pub mod http_retry_method_policy;
pub mod http_retry_options;
pub mod http_timeout_options;
pub mod logging_options;
pub mod proxy_options;
pub mod proxy_type;
pub mod sensitive_headers;
pub mod sse_decode_options;
