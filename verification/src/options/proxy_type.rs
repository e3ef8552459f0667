//! Proxy kinds and their URL schemes.
use vstd::prelude::*;

use crate::text::{matches_ignore_case, matches_ignore_case_seq};

verus! {

/// URL scheme selector used when constructing the proxy URL.
#[derive(Debug, Clone, Copy, PartialEq, Eq, Structural)]
pub enum ProxyType {
    /// HTTP proxy.
    Http,
    /// HTTPS proxy.
    Https,
    /// SOCKS5 proxy (with remote DNS).
    Socks5,
}

/// The URL scheme of each proxy kind.
pub open spec fn proxy_scheme(t: ProxyType) -> Seq<char> {
    match t {
        ProxyType::Http => "http"@,
        ProxyType::Https => "https"@,
        ProxyType::Socks5 => "socks5h"@,
    }
}

/// The kind named by `s` (case-insensitively): `http`, `https`, or `socks5h`
/// / `socks5`.
pub open spec fn proxy_type_named(s: Seq<char>) -> Option<ProxyType> {
    if matches_ignore_case_seq(s, "http"@) {
        Some(ProxyType::Http)
    } else if matches_ignore_case_seq(s, "https"@) {
        Some(ProxyType::Https)
    } else if matches_ignore_case_seq(s, "socks5h"@) || matches_ignore_case_seq(s, "socks5"@) {
        Some(ProxyType::Socks5)
    } else {
        None
    }
}

/// A proxy type's URL scheme names that type again.
pub proof fn law_proxy_scheme_round_trip(t: ProxyType)
    ensures
        proxy_type_named(proxy_scheme(t)) == Some(t),
{
    reveal_strlit("http");
    reveal_strlit("https");
    reveal_strlit("socks5h");
    let s = proxy_scheme(t);
    assert(matches_ignore_case_seq(s, s));
}

impl ProxyType {
    /// The default kind, [`ProxyType::Http`].
    pub fn default_type() -> (r: Self)
        ensures
            r == ProxyType::Http,
    {
        ProxyType::Http
    }

    /// Returns the URL scheme: `"http"`, `"https"`, or `"socks5h"` (SOCKS5
    /// with remote DNS).
    pub fn scheme(self) -> (r: &'static str)
        ensures
            r@ == proxy_scheme(self),
    {
        match self {
            ProxyType::Http => "http",
            ProxyType::Https => "https",
            ProxyType::Socks5 => "socks5h",
        }
    }

    /// Parses a proxy kind name as a whole, ignoring case.
    pub fn parse(s: &str) -> (r: Option<Self>)
        ensures
            r == proxy_type_named(s@),
    {
        if matches_ignore_case(s, "http") {
            Some(ProxyType::Http)
        } else if matches_ignore_case(s, "https") {
            Some(ProxyType::Https)
        } else if matches_ignore_case(s, "socks5h") || matches_ignore_case(s, "socks5") {
            Some(ProxyType::Socks5)
        } else {
            None
        }
    }
}

impl Default for ProxyType {
    fn default() -> (r: Self)
        ensures
            r == ProxyType::Http,
    {
        ProxyType::Http
    }
}

} // verus!
