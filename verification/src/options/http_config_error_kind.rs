//! Categories of configuration errors.
use vstd::prelude::*;

verus! {

/// Category of HTTP configuration errors.
#[derive(Debug, Clone, Copy, PartialEq, Eq, Structural)]
pub enum HttpConfigErrorKind {
    /// A required configuration key is missing.
    MissingField,
    /// The value exists but cannot be converted to the expected type.
    TypeError,
    /// The value is present and well-typed but semantically invalid.
    InvalidValue,
    /// A header name or value cannot be converted to an HTTP header.
    InvalidHeader,
    /// An underlying configuration-store error occurred.
    ConfigError,
}

/// The display text of each kind.
pub open spec fn config_error_kind_text(kind: HttpConfigErrorKind) -> Seq<char> {
    match kind {
        HttpConfigErrorKind::MissingField => "missing field"@,
        HttpConfigErrorKind::TypeError => "type error"@,
        HttpConfigErrorKind::InvalidValue => "invalid value"@,
        HttpConfigErrorKind::InvalidHeader => "invalid header"@,
        HttpConfigErrorKind::ConfigError => "config error"@,
    }
}

impl HttpConfigErrorKind {
    /// Returns the display text (e.g. `missing field`).
    pub fn as_str(&self) -> (r: &'static str)
        ensures
            r@ == config_error_kind_text(*self),
    {
        match self {
            HttpConfigErrorKind::MissingField => "missing field",
            HttpConfigErrorKind::TypeError => "type error",
            HttpConfigErrorKind::InvalidValue => "invalid value",
            HttpConfigErrorKind::InvalidHeader => "invalid header",
            HttpConfigErrorKind::ConfigError => "config error",
        }
    }
}

} // verus!
