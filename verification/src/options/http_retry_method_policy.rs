//! Which request methods automatic retries apply to.
use vstd::prelude::*;

use super::http_config_error::HttpConfigError;
use super::http_config_error_kind::HttpConfigErrorKind;
use crate::text::{matches_ignore_case, matches_ignore_case_seq, push_str, trim, trim_seq};

verus! {

/// Method filter for automatic retries.
#[derive(Debug, Clone, Copy, PartialEq, Eq, Structural)]
pub enum HttpRetryMethodPolicy {
    /// Only idempotent methods: GET, HEAD, PUT, DELETE, OPTIONS, TRACE.
    IdempotentOnly,
    /// Every method.
    AllMethods,
    /// No method (configured as `NONE` or `DISABLED`).
    Disabled,
}

/// The policy a configuration word names (case-insensitive), if any:
/// `IDEMPOTENT_ONLY` or `IDEMPOTENT`, `ALL_METHODS` or `ALL`, `NONE` or
/// `DISABLED`.
pub open spec fn retry_method_policy_named(s: Seq<char>) -> Option<HttpRetryMethodPolicy> {
    if matches_ignore_case_seq(s, "IDEMPOTENT_ONLY"@) || matches_ignore_case_seq(s, "IDEMPOTENT"@) {
        Some(HttpRetryMethodPolicy::IdempotentOnly)
    } else if matches_ignore_case_seq(s, "ALL_METHODS"@) || matches_ignore_case_seq(s, "ALL"@) {
        Some(HttpRetryMethodPolicy::AllMethods)
    } else if matches_ignore_case_seq(s, "NONE"@) || matches_ignore_case_seq(s, "DISABLED"@) {
        Some(HttpRetryMethodPolicy::Disabled)
    } else {
        None
    }
}

/// Whether `method` is one of the idempotent standard methods.
pub open spec fn is_idempotent_method(method: Seq<char>) -> bool {
    method == "GET"@ || method == "HEAD"@ || method == "PUT"@ || method == "DELETE"@
        || method == "OPTIONS"@ || method == "TRACE"@
}

/// Whether `policy` lets a request with `method` be retried.
pub open spec fn policy_allows(policy: HttpRetryMethodPolicy, method: Seq<char>) -> bool {
    match policy {
        HttpRetryMethodPolicy::IdempotentOnly => is_idempotent_method(method),
        HttpRetryMethodPolicy::AllMethods => true,
        HttpRetryMethodPolicy::Disabled => false,
    }
}

/// Under the idempotent-only policy a method may be retried exactly when it
/// is `GET`, `HEAD`, `PUT`, `DELETE`, `OPTIONS` or `TRACE`; every method may
/// be retried under the all-methods policy, and none when retry is disabled.
pub proof fn law_policy_allowed_methods(method: Seq<char>)
    ensures
        policy_allows(HttpRetryMethodPolicy::IdempotentOnly, method) <==> (method == "GET"@ || method
            == "HEAD"@ || method == "PUT"@ || method == "DELETE"@ || method == "OPTIONS"@ || method
            == "TRACE"@),
        policy_allows(HttpRetryMethodPolicy::AllMethods, method),
        !policy_allows(HttpRetryMethodPolicy::Disabled, method),
{
}

/// The message of an unsupported policy word.
pub open spec fn unsupported_policy_message(value: Seq<char>) -> Seq<char> {
    "Unsupported retry method policy: "@ + value
}

/// A policy's configuration name, as written in configuration, reads back
/// as the same policy.
pub proof fn law_method_policy_name_round_trip(p: HttpRetryMethodPolicy)
    ensures
        retry_method_policy_named(trim_seq(policy_name(p))) == Some(p),
{
    reveal_strlit("IDEMPOTENT_ONLY");
    reveal_strlit("IDEMPOTENT");
    reveal_strlit("ALL_METHODS");
    reveal_strlit("ALL");
    reveal_strlit("NONE");
    let s = policy_name(p);
    crate::text::lemma_trim_no_white_space(s);
    assert(matches_ignore_case_seq(s, s));
}

/// The configuration name of each policy.
pub open spec fn policy_name(p: HttpRetryMethodPolicy) -> Seq<char> {
    match p {
        HttpRetryMethodPolicy::IdempotentOnly => "IDEMPOTENT_ONLY"@,
        HttpRetryMethodPolicy::AllMethods => "ALL_METHODS"@,
        HttpRetryMethodPolicy::Disabled => "NONE"@,
    }
}

impl HttpRetryMethodPolicy {
    /// Parses a configured policy (trimmed, case-insensitive), reporting an
    /// invalid value at `method_policy` otherwise.
    pub fn from_config_value(value: &str) -> (r: Result<Self, HttpConfigError>)
        ensures
            match r {
                Ok(p) => retry_method_policy_named(trim_seq(value@)) == Some(p),
                Err(e) => retry_method_policy_named(trim_seq(value@)) is None && e@ == (
                    HttpConfigErrorKind::InvalidValue,
                    "method_policy"@,
                    unsupported_policy_message(value@),
                ),
            },
    {
        let t = trim(value);
        if matches_ignore_case(t, "IDEMPOTENT_ONLY") || matches_ignore_case(t, "IDEMPOTENT") {
            return Ok(HttpRetryMethodPolicy::IdempotentOnly);
        }
        if matches_ignore_case(t, "ALL_METHODS") || matches_ignore_case(t, "ALL") {
            return Ok(HttpRetryMethodPolicy::AllMethods);
        }
        if matches_ignore_case(t, "NONE") || matches_ignore_case(t, "DISABLED") {
            return Ok(HttpRetryMethodPolicy::Disabled);
        }
        let mut message = "Unsupported retry method policy: ".to_owned();
        push_str(&mut message, value);
        Err(HttpConfigError::from_parts(HttpConfigErrorKind::InvalidValue, "method_policy".to_owned(), message))
    }

    /// Whether a request with the given method name may be retried under
    /// this policy.
    pub fn allows_method(&self, method: &str) -> (r: bool)
        ensures
            r == policy_allows(*self, method@),
    {
        match self {
            HttpRetryMethodPolicy::IdempotentOnly => {
                let m = method.to_owned();
                m == "GET".to_owned() || m == "HEAD".to_owned() || m == "PUT".to_owned()
                    || m == "DELETE".to_owned() || m == "OPTIONS".to_owned() || m == "TRACE".to_owned()
            },
            HttpRetryMethodPolicy::AllMethods => true,
            HttpRetryMethodPolicy::Disabled => false,
        }
    }

    /// The configuration name: `IDEMPOTENT_ONLY`, `ALL_METHODS` or `NONE`.
    pub fn as_str(&self) -> (r: &'static str)
        ensures
            r@ == policy_name(*self),
            retry_method_policy_named(r@) == Some(*self),
    {
        let r = match self {
            HttpRetryMethodPolicy::IdempotentOnly => "IDEMPOTENT_ONLY",
            HttpRetryMethodPolicy::AllMethods => "ALL_METHODS",
            HttpRetryMethodPolicy::Disabled => "NONE",
        };
        proof {
            reveal_strlit("IDEMPOTENT_ONLY");
            reveal_strlit("IDEMPOTENT");
            reveal_strlit("ALL_METHODS");
            reveal_strlit("ALL");
            reveal_strlit("NONE");
            assert(matches_ignore_case_seq(r@, r@));
        }
        r
    }
}

impl Default for HttpRetryMethodPolicy {
    /// Idempotent methods only.
    fn default() -> (r: Self)
        ensures
            r == HttpRetryMethodPolicy::IdempotentOnly,
    {
        HttpRetryMethodPolicy::IdempotentOnly
    }
}

} // verus!
