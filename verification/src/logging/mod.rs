//! Log-safe rendering of header values, and the TRACE lines of requests and
//! responses.

pub mod masker;
pub mod policy;
