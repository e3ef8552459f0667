//! Resolving a request path to the URL that is sent: absolute paths as they
//! are, relative ones against the client's base URL, and IPv6 literal hosts
//! refused when only IPv4 is used.
use vstd::prelude::*;

use crate::error::http_error::HttpError;
use crate::error::http_error_kind::HttpErrorKind;
use crate::options::http_client_options::{parse_url, url_parse_outcome};
use crate::text::push_str;

verus! {

/// Names what `url::Url::join` gives for the URL `base` (a serialization)
/// and a reference `path`: the serialization of the joined URL, or the
/// display text of the error.
pub uninterp spec fn url_join_outcome(base: Seq<char>, path: Seq<char>) -> Result<Seq<char>, Seq<char>>;

/// Names whether `url::Url::host` of the URL serialized as `url` is an IPv6
/// address.
pub uninterp spec fn url_host_is_ipv6(url: Seq<char>) -> bool;

/// Calls `url::Url::join` on the URL serialized as `base`; hands back the
/// serialization of the result or the display text of the error.
#[verifier::external_body]
fn join_url(base: &str, path: &str) -> (r: Result<String, String>)
    ensures
        match r {
            Ok(u) => url_join_outcome(base@, path@) == Ok::<Seq<char>, Seq<char>>(u@),
            Err(m) => url_join_outcome(base@, path@) == Err::<Seq<char>, Seq<char>>(m@),
        },
{
    let parsed = url::Url::parse(base).map_err(|e| e.to_string())?;
    parsed.join(path).map(|u| u.as_str().to_owned()).map_err(|e| e.to_string())
}

/// Calls `url::Url::host` on the URL serialized as `url` and tells whether
/// it is an IPv6 address.
#[verifier::external_body]
fn host_is_ipv6(url: &str) -> (r: bool)
    ensures
        r == url_host_is_ipv6(url@),
{
    match url::Url::parse(url) {
        Ok(u) => matches!(u.host(), Some(url::Host::Ipv6(_))),
        Err(_) => false,
    }
}

/// The rejection of a resolved URL under the IPv4-only setting, if any.
pub open spec fn host_problem(url: Seq<char>, ipv4_only: bool) -> Option<Seq<char>> {
    if ipv4_only && url_host_is_ipv6(url) {
        Some("IPv6 literal host is not allowed when ipv4_only=true: "@ + url)
    } else {
        None
    }
}

/// Refuses an IPv6 literal host when only IPv4 is used.
pub fn validate_resolved_url_host(url: &str, ipv4_only: bool) -> (r: Result<(), HttpError>)
    ensures
        match r {
            Ok(()) => host_problem(url@, ipv4_only) is None,
            Err(e) => host_problem(url@, ipv4_only) == Some(e.message@) && e.is_bare(
                HttpErrorKind::InvalidUrl,
                e.message@,
            ),
        },
{
    if ipv4_only && host_is_ipv6(url) {
        let mut message = "IPv6 literal host is not allowed when ipv4_only=true: ".to_owned();
        push_str(&mut message, url);
        return Err(HttpError::with_message(HttpErrorKind::InvalidUrl, message));
    }
    Ok(())
}

/// What resolving `path` gives: the URL itself when it parses as an absolute
/// URL, else its join with the base URL; an error text when there is no base
/// URL, the join fails, or the host is refused.
pub open spec fn resolved_url(path: Seq<char>, base_url: Option<Seq<char>>, ipv4_only: bool) -> Result<
    Seq<char>,
    Seq<char>,
> {
    let target: Result<Seq<char>, Seq<char>> = match url_parse_outcome(path) {
        Ok(u) => Ok(u),
        Err(_) => match base_url {
            None => Err("Cannot resolve relative path '"@ + path + "' without base_url"@),
            Some(b) => match url_join_outcome(b, path) {
                Ok(u) => Ok(u),
                Err(m) => Err(
                    "Failed to resolve path '"@ + path + "' against base URL '"@ + b + "': "@ + m,
                ),
            },
        },
    };
    match target {
        Ok(u) => match host_problem(u, ipv4_only) {
            Some(m) => Err(m),
            None => Ok(u),
        },
        Err(m) => Err(m),
    }
}

/// Resolves a request path (see [`resolved_url`]); every failure is an
/// invalid-URL error.
pub fn resolve_url(path: &str, base_url: Option<&str>, ipv4_only: bool) -> (r: Result<String, HttpError>)
    ensures
        match r {
            Ok(u) => resolved_url(
                path@,
                match base_url {
                    Some(b) => Some(b@),
                    None => None,
                },
                ipv4_only,
            ) == Ok::<Seq<char>, Seq<char>>(u@),
            Err(e) => resolved_url(
                path@,
                match base_url {
                    Some(b) => Some(b@),
                    None => None,
                },
                ipv4_only,
            ) == Err::<Seq<char>, Seq<char>>(e.message@) && e.is_bare(
                HttpErrorKind::InvalidUrl,
                e.message@,
            ),
        },
{
    let url = match parse_url(path) {
        Ok(u) => u,
        Err(_) => match base_url {
            None => {
                let mut message = "Cannot resolve relative path '".to_owned();
                push_str(&mut message, path);
                push_str(&mut message, "' without base_url");
                return Err(HttpError::with_message(HttpErrorKind::InvalidUrl, message));
            },
            Some(b) => match join_url(b, path) {
                Ok(u) => u,
                Err(m) => {
                    let mut message = "Failed to resolve path '".to_owned();
                    push_str(&mut message, path);
                    push_str(&mut message, "' against base URL '");
                    push_str(&mut message, b);
                    push_str(&mut message, "': ");
                    push_str(&mut message, m.as_str());
                    return Err(HttpError::with_message(HttpErrorKind::InvalidUrl, message));
                },
            },
        },
    };
    validate_resolved_url_host(url.as_str(), ipv4_only)?;
    Ok(url)
}

} // verus!
