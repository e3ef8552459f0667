//! Which origins a request may be sent to.
use vstd::prelude::*;

verus! {

/// Origin restriction for requests built from a base URL.
#[derive(Debug, Clone, Copy, PartialEq, Eq, Structural)]
pub enum HttpOriginPolicy {
    /// Requests must stay on the base URL's origin.
    SameOrigin,
    /// Requests may target any origin.
    AnyOrigin,
}

impl Default for HttpOriginPolicy {
    /// Same-origin.
    fn default() -> (r: Self)
        ensures
            r == HttpOriginPolicy::SameOrigin,
    {
        HttpOriginPolicy::SameOrigin
    }
}

} // verus!
