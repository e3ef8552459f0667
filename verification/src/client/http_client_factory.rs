//! Turning validated options into a transport build plan, and configuration
//! errors into client errors.
use vstd::prelude::*;

use crate::error::http_error::HttpError;
use crate::error::http_error_kind::HttpErrorKind;
use crate::options::http_client_options::{client_options_problem, HttpClientOptions};
use crate::options::http_config_error::{config_error_text, HttpConfigError};
use crate::options::http_config_error_kind::HttpConfigErrorKind;
use crate::options::proxy_type::proxy_scheme;
use crate::text::{
    decimal_text, find_str, occurs_at, push_decimal, push_str, starts_with_seq, str_starts_with,
};
use crate::time_span::TimeSpan;

verus! {

/// Names what `reqwest::Proxy::all` reports for a proxy URL text: `None` when
/// it is accepted, else the error's display text.
pub uninterp spec fn proxy_url_rejection(url: Seq<char>) -> Option<Seq<char>>;

/// Calls `reqwest::Proxy::all` on a proxy URL and hands back the error's
/// display text when the URL is refused.
#[verifier::external_body]
fn check_proxy_url(url: &str) -> (r: Option<String>)
    ensures
        match r {
            None => proxy_url_rejection(url@) is None,
            Some(m) => proxy_url_rejection(url@) == Some(m@),
        },
{
    match reqwest::Proxy::all(url) {
        Ok(_) => None,
        Err(e) => Some(e.to_string()),
    }
}

/// Creates HTTP clients from options or configuration.
#[derive(Debug, Clone, Copy)]
pub struct HttpClientFactory;

impl HttpClientFactory {
    /// A factory.
    pub fn new() -> (r: Self) {
        HttpClientFactory
    }
}

impl Default for HttpClientFactory {
    /// Same as [`HttpClientFactory::new`].
    fn default() -> (r: Self) {
        HttpClientFactory
    }
}

/// The client error for a configuration problem: a proxy problem (path
/// under `proxy.`) is a proxy-configuration error with the problem's text;
/// any other is an `other` error prefixed `Invalid HTTP client options: `.
pub open spec fn validation_error_matches(r: HttpError, e: (HttpConfigErrorKind, Seq<char>, Seq<char>)) -> bool {
    if starts_with_seq(e.1, "proxy."@) {
        r.is_bare(HttpErrorKind::ProxyConfig, config_error_text(e))
    } else {
        r.is_bare(HttpErrorKind::Other, "Invalid HTTP client options: "@ + config_error_text(e))
    }
}

/// Maps a validation error of client options to a client error (see
/// [`validation_error_matches`]).
pub fn map_validation_error(error: HttpConfigError) -> (r: HttpError)
    ensures
        validation_error_matches(r, error@),
{
    let text = error.to_text();
    if str_starts_with(error.path.as_str(), "proxy.") {
        HttpError::with_message(HttpErrorKind::ProxyConfig, text)
    } else {
        let mut message = "Invalid HTTP client options: ".to_owned();
        push_str(&mut message, text.as_str());
        HttpError::with_message(HttpErrorKind::Other, message)
    }
}

/// How the transport reaches the network.
#[derive(Debug)]
pub enum ProxyPlan {
    /// Through the proxy at `url`, with basic credentials when a username is
    /// set (the password then defaults to empty).
    Explicit { url: String, credentials: Option<(String, String)> },
    /// Directly, ignoring proxy settings of the environment.
    NoProxy,
    /// As the environment's proxy settings say.
    FromEnvironment,
}

/// What the transport client is built with.
#[derive(Debug)]
pub struct ClientBuildPlan {
    /// Connect timeout.
    pub connect_timeout: TimeSpan,
    /// Whole-request timeout, when set.
    pub request_timeout: Option<TimeSpan>,
    /// Default `User-Agent`, when set.
    pub user_agent: Option<String>,
    /// Redirect limit, when set.
    pub max_redirects: Option<usize>,
    /// Idle time after which pooled connections close, when set.
    pub pool_idle_timeout: Option<TimeSpan>,
    /// Maximum idle connections per host, when set.
    pub pool_max_idle_per_host: Option<usize>,
    /// Whether names resolve to IPv4 addresses only.
    pub ipv4_only: bool,
    /// Proxy use.
    pub proxy: ProxyPlan,
}

/// The proxy URL `scheme://host:port` of enabled, valid proxy options.
pub open spec fn proxy_url_of(o: HttpClientOptions) -> Seq<char> {
    proxy_scheme(o.proxy.proxy_type) + "://"@ + o.proxy.host->0@ + ":"@ + decimal_text(
        o.proxy.port->0 as nat,
    )
}

/// The first reason options cannot be turned into a build plan, as a client
/// error predicate; `None` when they can. `proxy_host_is_ipv6` says whether
/// the proxy host, trimmed and without brackets, is an IPv6 literal.
pub open spec fn plan_problem(o: HttpClientOptions, proxy_host_is_ipv6: bool) -> Option<
    spec_fn(HttpError) -> bool,
> {
    if client_options_problem(o) is Some {
        Some(|r: HttpError| validation_error_matches(r, client_options_problem(o)->0))
    } else if o.proxy.enabled && o.ipv4_only && proxy_host_is_ipv6 {
        Some(
            |r: HttpError|
                r.is_bare(
                    HttpErrorKind::ProxyConfig,
                    "Proxy host '"@ + o.proxy.host->0@
                        + "' is IPv6, which is not allowed when ipv4_only=true"@,
                ),
        )
    } else if o.proxy.enabled && proxy_url_rejection(proxy_url_of(o)) is Some {
        Some(
            |r: HttpError|
                r.is_bare(
                    HttpErrorKind::ProxyConfig,
                    "Invalid proxy URL '"@ + proxy_url_of(o) + "': "@ + proxy_url_rejection(
                        proxy_url_of(o),
                    )->0,
                ),
        )
    } else {
        None
    }
}

impl HttpClientFactory {
    /// Validates options and decides how the transport client is built:
    /// timeouts, user agent, redirect and pool limits, IPv4-only resolution,
    /// and the proxy (an explicit proxy when enabled; otherwise none, unless
    /// environment proxies are allowed). `proxy_host_is_ipv6` says whether
    /// the proxy host, trimmed and without brackets, is an IPv6 literal.
    pub fn plan(&self, options: &HttpClientOptions, proxy_host_is_ipv6: bool) -> (r: Result<
        ClientBuildPlan,
        HttpError,
    >)
        ensures
            match r {
                Err(e) => plan_problem(*options, proxy_host_is_ipv6) matches Some(p) && p(e),
                Ok(plan) => {
                    &&& plan_problem(*options, proxy_host_is_ipv6) is None
                    &&& plan.connect_timeout == options.timeouts.connect_timeout
                    &&& plan.request_timeout == options.timeouts.request_timeout
                    &&& plan.user_agent == options.user_agent
                    &&& plan.max_redirects == options.max_redirects
                    &&& plan.pool_idle_timeout == options.pool_idle_timeout
                    &&& plan.pool_max_idle_per_host == options.pool_max_idle_per_host
                    &&& plan.ipv4_only == options.ipv4_only
                    &&& match plan.proxy {
                        ProxyPlan::Explicit { url, credentials } => {
                            &&& options.proxy.enabled
                            &&& url@ == proxy_url_of(*options)
                            &&& match options.proxy.username {
                                Some(u) => credentials matches Some((cu, cp)) && cu == u && cp@
                                    == match options.proxy.password {
                                    Some(p) => p@,
                                    None => Seq::<char>::empty(),
                                },
                                None => credentials is None,
                            }
                        },
                        ProxyPlan::NoProxy => !options.proxy.enabled && !options.use_env_proxy,
                        ProxyPlan::FromEnvironment => !options.proxy.enabled && options.use_env_proxy,
                    }
                },
            },
    {
        if let Err(e) = options.validate() {
            return Err(map_validation_error(e));
        }
        let proxy = if options.proxy.enabled {
            let host = match &options.proxy.host {
                Some(h) => h,
                None => {
                    return Err(HttpError::proxy_config("Proxy is enabled but host is missing"));
                },
            };
            if options.ipv4_only && proxy_host_is_ipv6 {
                let mut message = "Proxy host '".to_owned();
                push_str(&mut message, host.as_str());
                push_str(&mut message, "' is IPv6, which is not allowed when ipv4_only=true");
                return Err(HttpError::with_message(HttpErrorKind::ProxyConfig, message));
            }
            let port = match options.proxy.port {
                Some(p) => p,
                None => {
                    return Err(HttpError::proxy_config("Proxy is enabled but port is missing"));
                },
            };
            let mut url = options.proxy.proxy_type.scheme().to_owned();
            push_str(&mut url, "://");
            push_str(&mut url, host.as_str());
            push_str(&mut url, ":");
            push_decimal(&mut url, port as u64);
            if let Some(m) = check_proxy_url(url.as_str()) {
                let mut message = "Invalid proxy URL '".to_owned();
                push_str(&mut message, url.as_str());
                push_str(&mut message, "': ");
                push_str(&mut message, m.as_str());
                return Err(HttpError::with_message(HttpErrorKind::ProxyConfig, message));
            }
            let credentials = match &options.proxy.username {
                Some(u) => {
                    let password = match &options.proxy.password {
                        Some(p) => p.clone(),
                        None => String::new(),
                    };
                    Some((u.clone(), password))
                },
                None => None,
            };
            ProxyPlan::Explicit { url, credentials }
        } else if !options.use_env_proxy {
            ProxyPlan::NoProxy
        } else {
            ProxyPlan::FromEnvironment
        };
        Ok(
            ClientBuildPlan {
                connect_timeout: options.timeouts.connect_timeout,
                request_timeout: options.timeouts.request_timeout,
                user_agent: match &options.user_agent {
                    Some(u) => Some(u.clone()),
                    None => None,
                },
                max_redirects: options.max_redirects,
                pool_idle_timeout: options.pool_idle_timeout,
                pool_max_idle_per_host: options.pool_max_idle_per_host,
                ipv4_only: options.ipv4_only,
                proxy,
            },
        )
    }
}

/// The path of an error raised under the configuration prefix `prefix`
/// (non-empty): kept when already under the prefix; else the part from the
/// first occurrence of `prefix.` on, when there is one; else put under the
/// prefix.
pub open spec fn path_under_prefix(prefix: Seq<char>, path: Seq<char>, r: Seq<char>) -> bool {
    let pd = prefix + "."@;
    if path == prefix || starts_with_seq(path, pd) {
        r == path
    } else if exists|i: int| occurs_at(path, pd, i) {
        exists|k: int|
            #[trigger] occurs_at(path, pd, k) && (forall|j: int| 0 <= j < k ==> !#[trigger] occurs_at(path, pd, j))
                && r == path.skip(k)
    } else if path.len() == 0 {
        r == prefix
    } else {
        r == prefix + "."@ + path
    }
}

/// Places a configuration error raised under `prefix` at its full path
/// (see [`path_under_prefix`]); with an empty prefix the error is unchanged.
pub fn prefix_config_error(prefix: &str, error: HttpConfigError) -> (r: HttpConfigError)
    ensures
        r@.0 == error@.0,
        r@.2 == error@.2,
        prefix@.len() == 0 ==> r@.1 == error@.1,
        prefix@.len() > 0 ==> path_under_prefix(prefix@, error@.1, r@.1),
{
    if prefix.unicode_len() == 0 {
        return error;
    }
    let HttpConfigError { path, message, kind } = error;
    let mut prefix_with_dot = prefix.to_owned();
    push_str(&mut prefix_with_dot, ".");
    let p = path.as_str();
    let already = path == prefix.to_owned() || str_starts_with(p, prefix_with_dot.as_str());
    let new_path = if already {
        path.clone()
    } else {
        match find_str(p, prefix_with_dot.as_str()) {
            Some(k) => p.substring_char(k, p.unicode_len()).to_owned(),
            None => {
                if p.unicode_len() == 0 {
                    prefix.to_owned()
                } else {
                    let mut joined = prefix.to_owned();
                    push_str(&mut joined, ".");
                    push_str(&mut joined, p);
                    joined
                }
            },
        }
    };
    HttpConfigError { path: new_path, message, kind }
}

/// A path placed under a prefix stays where it is when placed under the same
/// prefix again: `prefix_config_error` is idempotent.
pub proof fn law_prefix_config_error_idempotent(
    prefix: Seq<char>,
    path: Seq<char>,
    once: Seq<char>,
    twice: Seq<char>,
)
    requires
        prefix.len() > 0,
        path_under_prefix(prefix, path, once),
        path_under_prefix(prefix, once, twice),
    ensures
        twice == once,
{
    let pd = prefix + "."@;
    if path == prefix || starts_with_seq(path, pd) {
    } else if exists|i: int| occurs_at(path, pd, i) {
        let k = choose|k: int|
            #[trigger] occurs_at(path, pd, k) && (forall|j: int| 0 <= j < k ==> !#[trigger] occurs_at(path, pd, j))
                && once == path.skip(k);
        assert(once.take(pd.len() as int) =~= path.subrange(k, k + pd.len()));
        assert(starts_with_seq(once, pd));
    } else if path.len() == 0 {
    } else {
        assert(once.take(pd.len() as int) =~= pd);
        assert(starts_with_seq(once, pd));
    }
}

} // verus!
