//! Errors of configuration-to-options conversion.
use vstd::prelude::*;

use super::http_config_error_kind::{config_error_kind_text, HttpConfigErrorKind};

verus! {

/// Error type for HTTP configuration conversion failures: the failing
/// configuration path, a human-readable message, and the category.
#[derive(Debug)]
pub struct HttpConfigError {
    /// The configuration path that triggered the error, e.g. `http.proxy.port`.
    pub path: String,
    /// Human-readable description of the problem.
    pub message: String,
    /// Error category.
    pub kind: HttpConfigErrorKind,
}

impl View for HttpConfigError {
    type V = (HttpConfigErrorKind, Seq<char>, Seq<char>);

    /// Category, path and message.
    open spec fn view(&self) -> (HttpConfigErrorKind, Seq<char>, Seq<char>) {
        (self.kind, self.path@, self.message@)
    }
}

/// The display text `[kind] path: message`.
pub open spec fn config_error_text(e: (HttpConfigErrorKind, Seq<char>, Seq<char>)) -> Seq<char> {
    "["@ + config_error_kind_text(e.0) + "] "@ + e.1 + ": "@ + e.2
}

impl HttpConfigError {
    /// Builds a configuration error with the given classification and message.
    pub fn new(kind: HttpConfigErrorKind, path: &str, message: &str) -> (r: Self)
        ensures
            r@ == (kind, path@, message@),
    {
        HttpConfigError { kind, path: path.to_owned(), message: message.to_owned() }
    }

    /// Builds a configuration error from owned text.
    pub fn from_parts(kind: HttpConfigErrorKind, path: String, message: String) -> (r: Self)
        ensures
            r@ == (kind, path@, message@),
    {
        HttpConfigError { kind, path, message }
    }

    /// Shorthand for [`HttpConfigErrorKind::MissingField`].
    pub fn missing(path: &str, message: &str) -> (r: Self)
        ensures
            r@ == (HttpConfigErrorKind::MissingField, path@, message@),
    {
        Self::new(HttpConfigErrorKind::MissingField, path, message)
    }

    /// Shorthand for [`HttpConfigErrorKind::TypeError`].
    pub fn type_error(path: &str, message: &str) -> (r: Self)
        ensures
            r@ == (HttpConfigErrorKind::TypeError, path@, message@),
    {
        Self::new(HttpConfigErrorKind::TypeError, path, message)
    }

    /// Shorthand for [`HttpConfigErrorKind::InvalidValue`].
    pub fn invalid_value(path: &str, message: &str) -> (r: Self)
        ensures
            r@ == (HttpConfigErrorKind::InvalidValue, path@, message@),
    {
        Self::new(HttpConfigErrorKind::InvalidValue, path, message)
    }

    /// Shorthand for [`HttpConfigErrorKind::InvalidHeader`].
    pub fn invalid_header(path: &str, message: &str) -> (r: Self)
        ensures
            r@ == (HttpConfigErrorKind::InvalidHeader, path@, message@),
    {
        Self::new(HttpConfigErrorKind::InvalidHeader, path, message)
    }

    /// Shorthand for [`HttpConfigErrorKind::ConfigError`] (an underlying
    /// configuration-store failure).
    pub fn config_error(path: &str, message: &str) -> (r: Self)
        ensures
            r@ == (HttpConfigErrorKind::ConfigError, path@, message@),
    {
        Self::new(HttpConfigErrorKind::ConfigError, path, message)
    }

    /// Formats as `[kind] path: message`.
    pub fn to_text(&self) -> (r: String)
        ensures
            r@ == config_error_text(self@),
    {
        let mut out = "[".to_owned();
        out.append(self.kind.as_str());
        out.append("] ");
        out.append(self.path.as_str());
        out.append(": ");
        out.append(self.message.as_str());
        out
    }

    /// A copy with the same category, path and message.
    pub fn duplicate(&self) -> (r: Self)
        ensures
            r@ == self@,
    {
        HttpConfigError { kind: self.kind, path: self.path.clone(), message: self.message.clone() }
    }
}

impl PartialEq for HttpConfigError {
    fn eq(&self, other: &Self) -> (r: bool) {
        self.kind == other.kind && self.path == other.path && self.message == other.message
    }
}

impl vstd::std_specs::cmp::PartialEqSpecImpl for HttpConfigError {
    open spec fn obeys_eq_spec() -> bool {
        true
    }

    open spec fn eq_spec(&self, other: &Self) -> bool {
        self@ == other@
    }
}

/// The failure categories of a structured argument-validation error.
#[derive(Debug)]
pub enum ArgumentFailure {
    /// A required value is missing.
    Missing,
    /// A caller-defined rule failed, with its code and message.
    Custom { code: String, message: String },
    /// Any other structured validation failure.
    Other,
}

/// The configuration error for an argument-validation failure at `path`.
pub open spec fn argument_failure_error(path: Seq<char>, failure: ArgumentFailure) -> (
    HttpConfigErrorKind,
    Seq<char>,
    Seq<char>,
) {
    match failure {
        ArgumentFailure::Missing => (
            HttpConfigErrorKind::MissingField,
            path,
            "Required value is missing"@,
        ),
        ArgumentFailure::Custom { code, message } => if code@ == "http_config_missing"@ {
            (HttpConfigErrorKind::MissingField, path, message@)
        } else {
            (HttpConfigErrorKind::InvalidValue, path, message@)
        },
        ArgumentFailure::Other => (
            HttpConfigErrorKind::InvalidValue,
            path,
            "Argument validation failed"@,
        ),
    }
}

impl HttpConfigError {
    /// Converts a structured argument-validation failure at `path` into an
    /// invalid (or missing) configuration value, keeping the path and a
    /// caller-defined message.
    pub fn from_argument_failure(path: &str, failure: ArgumentFailure) -> (r: Self)
        ensures
            r@ == argument_failure_error(path@, failure),
    {
        match failure {
            ArgumentFailure::Missing => HttpConfigError::missing(path, "Required value is missing"),
            ArgumentFailure::Custom { code, message } => {
                if code == "http_config_missing".to_owned() {
                    HttpConfigError::from_parts(
                        HttpConfigErrorKind::MissingField,
                        path.to_owned(),
                        message,
                    )
                } else {
                    HttpConfigError::from_parts(
                        HttpConfigErrorKind::InvalidValue,
                        path.to_owned(),
                        message,
                    )
                }
            },
            ArgumentFailure::Other => HttpConfigError::invalid_value(
                path,
                "Argument validation failed",
            ),
        }
    }

    /// Converts a configuration-store failure: typed failures (type mismatch,
    /// conversion, property without value) are type errors, all others are
    /// configuration errors.
    pub fn from_config_failure(typed: bool, path: String, message: String) -> (r: Self)
        ensures
            r@ == (
                if typed {
                    HttpConfigErrorKind::TypeError
                } else {
                    HttpConfigErrorKind::ConfigError
                },
                path@,
                message@,
            ),
    {
        if typed {
            HttpConfigError::from_parts(HttpConfigErrorKind::TypeError, path, message)
        } else {
            HttpConfigError::from_parts(HttpConfigErrorKind::ConfigError, path, message)
        }
    }
}

} // verus!
