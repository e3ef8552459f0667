//! Automatic retry settings: attempts, delays, and what is retried.
use vstd::prelude::*;

use super::http_config_error::HttpConfigError;
use super::http_config_error_kind::HttpConfigErrorKind;
use super::http_retry_method_policy::{
    policy_allows, retry_method_policy_named, unsupported_policy_message, HttpRetryMethodPolicy,
};
use crate::error::http_error::{is_retryable_status_code, status_is_retryable};
use crate::error::http_error_kind::{error_kind_named, HttpErrorKind};
use super::logging_options::or_default;
use crate::text::{
    texts, dash_to_underscore, dash_to_underscore_seq, decimal_text, eq_ignore_ascii_case,
    eq_ignore_ascii_case_seq, int_parse_failure, int_parse_failure_text, parse_unsigned,
    parse_unsigned_detailed, push_decimal, push_str, trim, trim_seq,
};
use crate::time_span::TimeSpan;

verus! {

/// Default maximum number of attempts, the first one included.
pub const DEFAULT_RETRY_MAX_ATTEMPTS: u32 = 3;

/// Default first (or fixed) retry delay, in milliseconds.
pub const DEFAULT_RETRY_INITIAL_DELAY_MILLIS: u64 = 200;

/// Default upper bound of a retry delay, in seconds.
pub const DEFAULT_RETRY_MAX_DELAY_SECS: u64 = 5;

/// The shape of the delay between attempts. The growth factor of an
/// exponential backoff and the jitter are fractional and are kept beside
/// these options by the caller.
#[derive(Debug, Clone, Copy, PartialEq, Eq, Structural)]
pub enum RetryDelayPlan {
    /// Retry at once.
    NoDelay,
    /// The same delay before every retry.
    Fixed(TimeSpan),
    /// A delay drawn between two bounds.
    Random { min: TimeSpan, max: TimeSpan },
    /// A delay growing from `initial` up to `max`.
    Exponential { initial: TimeSpan, max: TimeSpan },
}

/// Delays configured beside a delay strategy; each is used by the strategy
/// it belongs to and replaced by a default when absent.
#[derive(Debug, Clone, Copy, PartialEq, Eq, Structural)]
pub struct RetryDelayDurations {
    /// Delay of the fixed strategy.
    pub fixed_delay: Option<TimeSpan>,
    /// Lower bound of the random strategy.
    pub random_min_delay: Option<TimeSpan>,
    /// Upper bound of the random strategy.
    pub random_max_delay: Option<TimeSpan>,
    /// First delay of the exponential strategy.
    pub backoff_initial_delay: Option<TimeSpan>,
    /// Upper bound of the exponential strategy.
    pub backoff_max_delay: Option<TimeSpan>,
}

/// No delay configured.
pub open spec fn no_delays() -> RetryDelayDurations {
    RetryDelayDurations {
        fixed_delay: None,
        random_min_delay: None,
        random_max_delay: None,
        backoff_initial_delay: None,
        backoff_max_delay: None,
    }
}

/// The default delay plan: exponential backoff from 200 ms up to 5 s.
pub open spec fn default_delay_plan() -> RetryDelayPlan {
    RetryDelayPlan::Exponential {
        initial: TimeSpan::spec_from_millis(DEFAULT_RETRY_INITIAL_DELAY_MILLIS),
        max: TimeSpan::spec_from_secs(DEFAULT_RETRY_MAX_DELAY_SECS),
    }
}

/// Retry settings of a client or a request.
#[derive(Debug)]
pub struct HttpRetryOptions {
    /// Whether automatic retry is on.
    pub enabled: bool,
    /// Maximum attempts, the first one included.
    pub max_attempts: u32,
    /// Optional bound on the total time spent retrying.
    pub max_duration: Option<TimeSpan>,
    /// Delay between attempts.
    pub delay_strategy: RetryDelayPlan,
    /// Which methods may be retried.
    pub method_policy: HttpRetryMethodPolicy,
    /// Status codes that are retried; the default set when `None`.
    pub retry_status_codes: Option<Vec<u16>>,
    /// Error kinds that are retried; the default set when `None`.
    pub retry_error_kinds: Option<Vec<HttpErrorKind>>,
}

/// The view of an optional vector.
pub open spec fn opt_seq<T>(v: Option<Vec<T>>) -> Option<Seq<T>> {
    match v {
        Some(x) => Some(x@),
        None => None,
    }
}

/// The error kinds retried by default: timeouts of connect, read, write and
/// the whole request, and transport failures.
pub open spec fn default_retryable_kind(kind: HttpErrorKind) -> bool {
    kind == HttpErrorKind::ConnectTimeout || kind == HttpErrorKind::ReadTimeout || kind
        == HttpErrorKind::WriteTimeout || kind == HttpErrorKind::RequestTimeout || kind
        == HttpErrorKind::Transport
}

/// Whether `status` is retried under a configured set (or the default one).
pub open spec fn status_retryable_under(status: u16, codes: Option<Seq<u16>>) -> bool {
    match codes {
        Some(c) => c.contains(status),
        None => is_retryable_status_code(status),
    }
}

/// Whether `kind` is retried under a configured set (or the default one).
pub open spec fn kind_retryable_under(kind: HttpErrorKind, kinds: Option<Seq<HttpErrorKind>>) -> bool {
    match kinds {
        Some(k) => k.contains(kind),
        None => default_retryable_kind(kind),
    }
}

/// The default retryable statuses: 429 and every 5xx.
pub fn default_retryable_status(status: u16) -> (r: bool)
    ensures
        r == is_retryable_status_code(status),
{
    status_is_retryable(status)
}

/// Whether `kind` is retried by default.
pub fn default_retryable_error_kind(kind: HttpErrorKind) -> (r: bool)
    ensures
        r == default_retryable_kind(kind),
{
    match kind {
        HttpErrorKind::ConnectTimeout | HttpErrorKind::ReadTimeout | HttpErrorKind::WriteTimeout
        | HttpErrorKind::RequestTimeout | HttpErrorKind::Transport => true,
        _ => false,
    }
}

/// Whether `status` is retried: membership in `retry_status_codes` when
/// given, else the default set.
pub fn is_retryable_status(status: u16, retry_status_codes: Option<&[u16]>) -> (r: bool)
    ensures
        r == match retry_status_codes {
            Some(c) => c@.contains(status),
            None => is_retryable_status_code(status),
        },
{
    match retry_status_codes {
        Some(codes) => {
            let mut i: usize = 0;
            while i < codes.len()
                invariant
                    i <= codes@.len(),
                    retry_status_codes == Some(codes),
                    forall|j: int| 0 <= j < i ==> codes@[j] != status,
                decreases codes@.len() - i,
            {
                if codes[i] == status {
                    assert(codes@[i as int] == status);
                    return true;
                }
                i = i + 1;
            }
            false
        },
        None => default_retryable_status(status),
    }
}

/// Whether `kind` is retried: membership in `retry_error_kinds` when given,
/// else the default set.
pub fn is_retryable_error_kind(kind: HttpErrorKind, retry_error_kinds: Option<&[HttpErrorKind]>) -> (r:
    bool)
    ensures
        r == match retry_error_kinds {
            Some(k) => k@.contains(kind),
            None => default_retryable_kind(kind),
        },
{
    match retry_error_kinds {
        Some(kinds) => {
            let mut i: usize = 0;
            while i < kinds.len()
                invariant
                    i <= kinds@.len(),
                    retry_error_kinds == Some(kinds),
                    forall|j: int| 0 <= j < i ==> kinds@[j] != kind,
                decreases kinds@.len() - i,
            {
                if kinds[i] == kind {
                    assert(kinds@[i as int] == kind);
                    return true;
                }
                i = i + 1;
            }
            false
        },
        None => default_retryable_error_kind(kind),
    }
}


/// What one configured status-code entry gives: the code, or the message of
/// its rejection (blank, not a `u16`, or outside 100..=599).
pub open spec fn status_code_entry(v: Seq<char>) -> Result<u16, Seq<char>> {
    let t = trim_seq(v);
    if t.len() == 0 {
        Err("Retry status_codes cannot contain blank values"@)
    } else {
        match parse_unsigned(t, 65535) {
            None => Err(
                "Invalid retry status code '"@ + t + "': "@ + int_parse_failure_text(
                    int_parse_failure(t, 65535),
                ),
            ),
            Some(n) => if 100 <= n && n <= 599 {
                Ok(n as u16)
            } else {
                Err("Retry status code must be in range 100..=599, got "@ + decimal_text(n))
            },
        }
    }
}

/// The message of the first rejected status-code entry, if any.
pub open spec fn first_status_code_error(vs: Seq<Seq<char>>) -> Option<Seq<char>>
    decreases vs.len(),
{
    if vs.len() == 0 {
        None
    } else {
        match first_status_code_error(vs.drop_last()) {
            Some(m) => Some(m),
            None => match status_code_entry(vs.last()) {
                Err(m) => Some(m),
                Ok(_) => None,
            },
        }
    }
}

/// Every element is smaller than the next one.
pub open spec fn strictly_increasing(s: Seq<u16>) -> bool {
    forall|i: int, j: int| 0 <= i < j < s.len() ==> s[i] < s[j]
}

/// `c` is the code of some entry of `vs`.
pub open spec fn some_entry_is(vs: Seq<Seq<char>>, c: u16) -> bool {
    exists|i: int| 0 <= i < vs.len() && #[trigger] status_code_entry(vs[i]) == Ok::<u16, Seq<char>>(c)
}

fn parse_status_code_entry(v: &str) -> (r: Result<u16, String>)
    ensures
        match r {
            Ok(c) => status_code_entry(v@) == Ok::<u16, Seq<char>>(c),
            Err(m) => status_code_entry(v@) == Err::<u16, Seq<char>>(m@),
        },
{
    let t = trim(v);
    if t.unicode_len() == 0 {
        return Err("Retry status_codes cannot contain blank values".to_owned());
    }
    match parse_unsigned_detailed(t, 65535) {
        Err(f) => {
            let mut m = "Invalid retry status code '".to_owned();
            push_str(&mut m, t);
            push_str(&mut m, "': ");
            push_str(&mut m, f.as_str());
            Err(m)
        },
        Ok(n) => {
            if 100 <= n && n <= 599 {
                Ok(n as u16)
            } else {
                let mut m = "Retry status code must be in range 100..=599, got ".to_owned();
                push_decimal(&mut m, n);
                Err(m)
            }
        },
    }
}

/// Parses configured retry status codes: each entry is trimmed, must be a
/// `u16` in 100..=599; the result is ascending and without repeats. The
/// first rejected entry is reported at `status_codes`.
pub fn parse_retry_status_codes(values: &[String]) -> (r: Result<Vec<u16>, HttpConfigError>)
    ensures
        match r {
            Ok(codes) => {
                &&& first_status_code_error(texts(values@)) is None
                &&& strictly_increasing(codes@)
                &&& forall|c: u16| codes@.contains(c) <==> some_entry_is(texts(values@), c)
            },
            Err(e) => first_status_code_error(texts(values@)) matches Some(m) && e@ == (
                HttpConfigErrorKind::InvalidValue,
                "status_codes"@,
                m,
            ),
        },
{
    let ghost vs = texts(values@);
    let mut result: Vec<u16> = Vec::new();
    let mut idx: usize = 0;
    while idx < values.len()
        invariant
            idx <= values@.len(),
            vs == texts(values@),
            vs.len() == values@.len(),
            first_status_code_error(vs.take(idx as int)) is None,
            strictly_increasing(result@),
            forall|c: u16| result@.contains(c) <==> some_entry_is(vs.take(idx as int), c),
        decreases values@.len() - idx,
    {
        assert(vs.take(idx + 1).drop_last() =~= vs.take(idx as int));
        assert(vs[idx as int] == values@[idx as int]@);
        let code = match parse_status_code_entry(values[idx].as_str()) {
            Ok(c) => c,
            Err(m) => {
                proof {
                    lemma_first_error_prefix(vs, idx + 1);
                }
                return Err(
                    HttpConfigError::from_parts(
                        HttpConfigErrorKind::InvalidValue,
                        "status_codes".to_owned(),
                        m,
                    ),
                );
            },
        };
        let ghost old_result = result@;
        let mut j: usize = 0;
        while j < result.len() && result[j] < code
            invariant
                j <= result@.len(),
                result@ == old_result,
                forall|q: int| 0 <= q < j ==> result@[q] < code,
            decreases result@.len() - j,
        {
            j = j + 1;
        }
        if j < result.len() && result[j] == code {
            proof {
                assert forall|c: u16| result@.contains(c) <==> some_entry_is(
                    vs.take(idx + 1),
                    c,
                ) by {
                    if some_entry_is(vs.take(idx + 1), c) {
                        let i = choose|i: int|
                            0 <= i < idx + 1 && #[trigger] status_code_entry(vs.take(idx + 1)[i])
                                == Ok::<u16, Seq<char>>(c);
                        if i < idx {
                            assert(vs.take(idx as int)[i] == vs.take(idx + 1)[i]);
                        } else {
                            assert(result@[j as int] == c);
                        }
                    }
                    if result@.contains(c) {
                        let i = choose|i: int|
                            0 <= i < idx && #[trigger] status_code_entry(vs.take(idx as int)[i])
                                == Ok::<u16, Seq<char>>(c);
                        assert(vs.take(idx as int)[i] == vs.take(idx + 1)[i]);
                    }
                }
            }
        } else {
            proof {
                assert forall|q: int| j <= q < old_result.len() implies old_result[q] > code by {
                    assert(old_result[j as int] >= code);
                    assert(old_result[j as int] != code);
                    if q > j {
                        assert(old_result[j as int] < old_result[q]);
                    }
                }
                old_result.insert_ensures(j as int, code);
            }
            result.insert(j, code);
            proof {
                let ns = result@;
                assert(ns == old_result.insert(j as int, code));
                assert forall|a: int, b: int| 0 <= a < b < ns.len() implies ns[a] < ns[b] by {
                    if b < j {
                    } else if a < j && b == j {
                    } else if a < j {
                        assert(ns[b] == old_result[b - 1]);
                    } else if a == j {
                        assert(ns[b] == old_result[b - 1]);
                    } else {
                        assert(ns[a] == old_result[a - 1]);
                        assert(ns[b] == old_result[b - 1]);
                    }
                }
                assert forall|c: u16| ns.contains(c) <==> some_entry_is(vs.take(idx + 1), c) by {
                    if ns.contains(c) {
                        let k = choose|k: int| 0 <= k < ns.len() && ns[k] == c;
                        if k == j {
                            assert(vs.take(idx + 1)[idx as int] == vs[idx as int]);
                        } else {
                            if k < j {
                                assert(old_result[k] == c);
                            } else {
                                assert(old_result[k - 1] == c);
                            }
                            assert(old_result.contains(c));
                            let i = choose|i: int|
                                0 <= i < idx && #[trigger] status_code_entry(
                                    vs.take(idx as int)[i],
                                ) == Ok::<u16, Seq<char>>(c);
                            assert(vs.take(idx as int)[i] == vs.take(idx + 1)[i]);
                        }
                    }
                    if some_entry_is(vs.take(idx + 1), c) {
                        let i = choose|i: int|
                            0 <= i < idx + 1 && #[trigger] status_code_entry(vs.take(idx + 1)[i])
                                == Ok::<u16, Seq<char>>(c);
                        if i < idx {
                            assert(vs.take(idx as int)[i] == vs.take(idx + 1)[i]);
                            assert(some_entry_is(vs.take(idx as int), c));
                            assert(old_result.contains(c));
                            let k = choose|k: int| 0 <= k < old_result.len() && old_result[k] == c;
                            if k < j {
                                assert(ns[k] == c);
                            } else {
                                assert(ns[k + 1] == c);
                            }
                        } else {
                            assert(ns[j as int] == c);
                        }
                    }
                }
            }
        }
        idx = idx + 1;
    }
    assert(vs.take(idx as int) =~= vs);
    Ok(result)
}

proof fn lemma_first_error_prefix(vs: Seq<Seq<char>>, k: int)
    requires
        0 < k <= vs.len(),
        first_status_code_error(vs.take(k - 1)) is None,
        status_code_entry(vs[k - 1]) is Err,
    ensures
        first_status_code_error(vs) == Some(status_code_entry(vs[k - 1])->Err_0),
    decreases vs.len(),
{
    if k == vs.len() {
        assert(vs.drop_last() =~= vs.take(k - 1));
    } else {
        assert(vs.drop_last().take(k - 1) =~= vs.take(k - 1));
        assert(vs.drop_last()[k - 1] == vs[k - 1]);
        lemma_first_error_prefix(vs.drop_last(), k);
    }
}

/// What one configured error-kind entry gives: the kind whose snake_case
/// name is the trimmed entry with `-` read as `_`, or the message of its
/// rejection.
pub open spec fn error_kind_entry(v: Seq<char>) -> Result<HttpErrorKind, Seq<char>> {
    let t = trim_seq(v);
    if t.len() == 0 {
        Err("Retry error_kinds cannot contain blank values"@)
    } else {
        match error_kind_named(dash_to_underscore_seq(t)) {
            Some(k) => Ok(k),
            None => Err("Unsupported retry error kind: "@ + t),
        }
    }
}

/// The message of the first rejected error-kind entry, if any.
pub open spec fn first_error_kind_error(vs: Seq<Seq<char>>) -> Option<Seq<char>>
    decreases vs.len(),
{
    if vs.len() == 0 {
        None
    } else {
        match first_error_kind_error(vs.drop_last()) {
            Some(m) => Some(m),
            None => match error_kind_entry(vs.last()) {
                Err(m) => Some(m),
                Ok(_) => None,
            },
        }
    }
}

/// The kinds of the entries, in order, each kept only at its first
/// occurrence.
pub open spec fn distinct_entry_kinds(vs: Seq<Seq<char>>) -> Seq<HttpErrorKind>
    decreases vs.len(),
{
    if vs.len() == 0 {
        Seq::empty()
    } else {
        let d = distinct_entry_kinds(vs.drop_last());
        let k = error_kind_entry(vs.last())->Ok_0;
        if d.contains(k) {
            d
        } else {
            d.push(k)
        }
    }
}

fn parse_error_kind_entry(v: &str) -> (r: Result<HttpErrorKind, String>)
    ensures
        match r {
            Ok(k) => error_kind_entry(v@) == Ok::<HttpErrorKind, Seq<char>>(k),
            Err(m) => error_kind_entry(v@) == Err::<HttpErrorKind, Seq<char>>(m@),
        },
{
    let t = trim(v);
    if t.unicode_len() == 0 {
        return Err("Retry error_kinds cannot contain blank values".to_owned());
    }
    let normalized = dash_to_underscore(t);
    match HttpErrorKind::parse(normalized.as_str()) {
        Some(k) => Ok(k),
        None => {
            let mut m = "Unsupported retry error kind: ".to_owned();
            push_str(&mut m, t);
            Err(m)
        },
    }
}

proof fn lemma_first_kind_error_prefix(vs: Seq<Seq<char>>, k: int)
    requires
        0 < k <= vs.len(),
        first_error_kind_error(vs.take(k - 1)) is None,
        error_kind_entry(vs[k - 1]) is Err,
    ensures
        first_error_kind_error(vs) == Some(error_kind_entry(vs[k - 1])->Err_0),
    decreases vs.len(),
{
    if k == vs.len() {
        assert(vs.drop_last() =~= vs.take(k - 1));
    } else {
        assert(vs.drop_last().take(k - 1) =~= vs.take(k - 1));
        assert(vs.drop_last()[k - 1] == vs[k - 1]);
        lemma_first_kind_error_prefix(vs.drop_last(), k);
    }
}

/// Parses configured retry error kinds: each entry is trimmed, `-` is read
/// as `_`, and it must name a kind; repeats are dropped, first occurrences
/// kept in order. The first rejected entry is reported at `error_kinds`.
pub fn parse_retry_error_kinds(values: &[String]) -> (r: Result<Vec<HttpErrorKind>, HttpConfigError>)
    ensures
        match r {
            Ok(kinds) => first_error_kind_error(texts(values@)) is None && kinds@
                == distinct_entry_kinds(texts(values@)),
            Err(e) => first_error_kind_error(texts(values@)) matches Some(m) && e@ == (
                HttpConfigErrorKind::InvalidValue,
                "error_kinds"@,
                m,
            ),
        },
{
    let ghost vs = texts(values@);
    let mut result: Vec<HttpErrorKind> = Vec::new();
    let mut idx: usize = 0;
    while idx < values.len()
        invariant
            idx <= values@.len(),
            vs == texts(values@),
            vs.len() == values@.len(),
            first_error_kind_error(vs.take(idx as int)) is None,
            result@ == distinct_entry_kinds(vs.take(idx as int)),
        decreases values@.len() - idx,
    {
        assert(vs.take(idx + 1).drop_last() =~= vs.take(idx as int));
        assert(vs[idx as int] == values@[idx as int]@);
        let kind = match parse_error_kind_entry(values[idx].as_str()) {
            Ok(k) => k,
            Err(m) => {
                proof {
                    lemma_first_kind_error_prefix(vs, idx + 1);
                }
                return Err(
                    HttpConfigError::from_parts(
                        HttpConfigErrorKind::InvalidValue,
                        "error_kinds".to_owned(),
                        m,
                    ),
                );
            },
        };
        let mut present = false;
        let mut j: usize = 0;
        while j < result.len()
            invariant
                j <= result@.len(),
                present == (exists|q: int| 0 <= q < j && result@[q] == kind),
            decreases result@.len() - j,
        {
            if result[j] == kind {
                present = true;
            }
            j = j + 1;
        }
        if !present {
            result.push(kind);
        }
        idx = idx + 1;
    }
    assert(vs.take(idx as int) =~= vs);
    Ok(result)
}

/// The delay plan a configured strategy word names: the word is trimmed,
/// `-` is read as `_`, and case is ignored; missing delays take the defaults
/// (200 ms for a fixed, minimum or initial delay, 5 s for a maximum).
pub open spec fn delay_plan_named(value: Seq<char>, delays: RetryDelayDurations) -> Option<
    RetryDelayPlan,
> {
    let w = dash_to_underscore_seq(trim_seq(value));
    let initial = TimeSpan::spec_from_millis(DEFAULT_RETRY_INITIAL_DELAY_MILLIS);
    let max = TimeSpan::spec_from_secs(DEFAULT_RETRY_MAX_DELAY_SECS);
    if eq_ignore_ascii_case_seq(w, "none"@) {
        Some(RetryDelayPlan::NoDelay)
    } else if eq_ignore_ascii_case_seq(w, "fixed"@) {
        Some(RetryDelayPlan::Fixed(or_default(delays.fixed_delay, initial)))
    } else if eq_ignore_ascii_case_seq(w, "random"@) {
        Some(
            RetryDelayPlan::Random {
                min: or_default(delays.random_min_delay, initial),
                max: or_default(delays.random_max_delay, max),
            },
        )
    } else if eq_ignore_ascii_case_seq(w, "exponential_backoff"@) || eq_ignore_ascii_case_seq(
        w,
        "exponential"@,
    ) {
        Some(
            RetryDelayPlan::Exponential {
                initial: or_default(delays.backoff_initial_delay, initial),
                max: or_default(delays.backoff_max_delay, max),
            },
        )
    } else {
        None
    }
}

/// Parses a configured delay strategy (`none`, `fixed`, `random`,
/// `exponential_backoff` or `exponential`) with the delays that go with it;
/// any other word is an invalid value at `delay_strategy`.
pub fn parse_retry_delay_strategy(value: &str, delays: RetryDelayDurations) -> (r: Result<
    RetryDelayPlan,
    HttpConfigError,
>)
    ensures
        match r {
            Ok(p) => delay_plan_named(value@, delays) == Some(p),
            Err(e) => delay_plan_named(value@, delays) is None && e@ == (
                HttpConfigErrorKind::InvalidValue,
                "delay_strategy"@,
                "Unsupported retry delay strategy: "@ + value@,
            ),
        },
{
    let w = dash_to_underscore(trim(value));
    let initial = TimeSpan::from_millis(DEFAULT_RETRY_INITIAL_DELAY_MILLIS);
    let max = TimeSpan::from_secs(DEFAULT_RETRY_MAX_DELAY_SECS);
    if eq_ignore_ascii_case(w.as_str(), "none") {
        return Ok(RetryDelayPlan::NoDelay);
    }
    if eq_ignore_ascii_case(w.as_str(), "fixed") {
        return Ok(RetryDelayPlan::Fixed(delays.fixed_delay.unwrap_or(initial)));
    }
    if eq_ignore_ascii_case(w.as_str(), "random") {
        return Ok(
            RetryDelayPlan::Random {
                min: delays.random_min_delay.unwrap_or(initial),
                max: delays.random_max_delay.unwrap_or(max),
            },
        );
    }
    if eq_ignore_ascii_case(w.as_str(), "exponential_backoff") || eq_ignore_ascii_case(
        w.as_str(),
        "exponential",
    ) {
        return Ok(
            RetryDelayPlan::Exponential {
                initial: delays.backoff_initial_delay.unwrap_or(initial),
                max: delays.backoff_max_delay.unwrap_or(max),
            },
        );
    }
    let mut m = "Unsupported retry delay strategy: ".to_owned();
    push_str(&mut m, value);
    Err(HttpConfigError::from_parts(HttpConfigErrorKind::InvalidValue, "delay_strategy".to_owned(), m))
}

/// The view of an optional text.
pub open spec fn opt_text(v: Option<&str>) -> Option<Seq<char>> {
    match v {
        Some(s) => Some(s@),
        None => None,
    }
}

/// The view of optional configured values.
pub open spec fn opt_texts(v: Option<&[String]>) -> Option<Seq<Seq<char>>> {
    match v {
        Some(s) => Some(texts(s@)),
        None => None,
    }
}

/// The first problem of raw retry configuration values, checked in the
/// order method policy, status codes, error kinds, delay strategy, attempt
/// count; `None` when they form valid options.
pub open spec fn retry_config_problem(
    max_attempts: Option<u32>,
    delay_strategy: Option<Seq<char>>,
    method_policy: Option<Seq<char>>,
    status_codes: Option<Seq<Seq<char>>>,
    error_kinds: Option<Seq<Seq<char>>>,
    delays: RetryDelayDurations,
) -> Option<(HttpConfigErrorKind, Seq<char>, Seq<char>)> {
    if method_policy is Some && retry_method_policy_named(trim_seq(method_policy->0)) is None {
        Some(
            (
                HttpConfigErrorKind::InvalidValue,
                "method_policy"@,
                unsupported_policy_message(method_policy->0),
            ),
        )
    } else if status_codes is Some && first_status_code_error(status_codes->0) is Some {
        Some(
            (
                HttpConfigErrorKind::InvalidValue,
                "status_codes"@,
                first_status_code_error(status_codes->0)->0,
            ),
        )
    } else if error_kinds is Some && first_error_kind_error(error_kinds->0) is Some {
        Some(
            (
                HttpConfigErrorKind::InvalidValue,
                "error_kinds"@,
                first_error_kind_error(error_kinds->0)->0,
            ),
        )
    } else if delay_strategy is Some && delay_plan_named(delay_strategy->0, no_delays()) is None {
        Some(
            (
                HttpConfigErrorKind::InvalidValue,
                "delay_strategy"@,
                "Unsupported retry delay strategy: "@ + delay_strategy->0,
            ),
        )
    } else if or_default(max_attempts, DEFAULT_RETRY_MAX_ATTEMPTS) == 0 {
        Some(
            (
                HttpConfigErrorKind::InvalidValue,
                "max_attempts"@,
                "Retry max_attempts must be greater than 0"@,
            ),
        )
    } else if delay_plan_problem(configured_delay_plan(delay_strategy, delays)) is Some {
        Some(
            (
                HttpConfigErrorKind::InvalidValue,
                "delay_strategy"@,
                delay_plan_problem(configured_delay_plan(delay_strategy, delays))->0,
            ),
        )
    } else {
        None
    }
}

/// The delay plan a configured strategy word names (with its delays), or the
/// default plan when none is configured.
pub open spec fn configured_delay_plan(delay_strategy: Option<Seq<char>>, delays: RetryDelayDurations) -> RetryDelayPlan {
    match delay_strategy {
        Some(d) => delay_plan_named(d, delays)->0,
        None => default_delay_plan(),
    }
}

/// Whether a strategy word is accepted does not depend on the delays given
/// with it.
proof fn lemma_delay_plan_named_ignores_delays(value: Seq<char>, delays: RetryDelayDurations)
    ensures
        delay_plan_named(value, delays) is None <==> delay_plan_named(value, no_delays()) is None,
{
}

impl HttpRetryOptions {
    /// Retry off; three attempts; no total bound; exponential backoff from
    /// 200 ms to 5 s; idempotent methods; default statuses and error kinds.
    pub fn new() -> (r: Self)
        ensures
            !r.enabled,
            r.max_attempts == DEFAULT_RETRY_MAX_ATTEMPTS,
            r.max_duration is None,
            r.delay_strategy == default_delay_plan(),
            r.method_policy == HttpRetryMethodPolicy::IdempotentOnly,
            r.retry_status_codes is None,
            r.retry_error_kinds is None,
            retry_options_problem(r) is None,
    {
        HttpRetryOptions {
            enabled: false,
            max_attempts: DEFAULT_RETRY_MAX_ATTEMPTS,
            max_duration: None,
            delay_strategy: RetryDelayPlan::Exponential {
                initial: TimeSpan::from_millis(DEFAULT_RETRY_INITIAL_DELAY_MILLIS),
                max: TimeSpan::from_secs(DEFAULT_RETRY_MAX_DELAY_SECS),
            },
            method_policy: HttpRetryMethodPolicy::IdempotentOnly,
            retry_status_codes: None,
            retry_error_kinds: None,
        }
    }

    /// Whether a request with this method may be retried: retry is on and
    /// the method policy allows the method.
    pub fn allows_method(&self, method: &str) -> (r: bool)
        ensures
            r == (self.enabled && policy_allows(self.method_policy, method@)),
    {
        self.enabled && self.method_policy.allows_method(method)
    }

    /// Whether a request with this method is retried at all: more than one
    /// attempt is allowed and the method is allowed.
    pub fn should_retry(&self, method: &str) -> (r: bool)
        ensures
            r == (self.max_attempts > 1 && self.enabled && policy_allows(
                self.method_policy,
                method@,
            )),
    {
        self.max_attempts > 1 && self.allows_method(method)
    }

    /// Whether a response status is retried under these options.
    pub fn is_retryable_status(&self, status: u16) -> (r: bool)
        ensures
            r == status_retryable_under(status, opt_seq(self.retry_status_codes)),
    {
        match &self.retry_status_codes {
            Some(codes) => is_retryable_status(status, Some(codes.as_slice())),
            None => is_retryable_status(status, None),
        }
    }

    /// Whether an error kind is retried under these options.
    pub fn is_retryable_error_kind(&self, kind: HttpErrorKind) -> (r: bool)
        ensures
            r == kind_retryable_under(kind, opt_seq(self.retry_error_kinds)),
    {
        match &self.retry_error_kinds {
            Some(kinds) => is_retryable_error_kind(kind, Some(kinds.as_slice())),
            None => is_retryable_error_kind(kind, None),
        }
    }

    /// Builds options from raw configuration values, starting from the
    /// defaults: present values replace defaults, texts are parsed as by
    /// [`HttpRetryMethodPolicy::from_config_value`],
    /// [`parse_retry_status_codes`], [`parse_retry_error_kinds`] and
    /// [`parse_retry_delay_strategy`], and the attempt count is validated.
    /// The fractional backoff factor and jitter are read by the caller.
    pub fn from_config_input(
        enabled: Option<bool>,
        max_attempts: Option<u32>,
        max_duration: Option<TimeSpan>,
        delay_strategy: Option<&str>,
        delays: RetryDelayDurations,
        method_policy: Option<&str>,
        status_codes: Option<&[String]>,
        error_kinds: Option<&[String]>,
    ) -> (r: Result<Self, HttpConfigError>)
        ensures
            ({
                let problem = retry_config_problem(
                    max_attempts,
                    opt_text(delay_strategy),
                    opt_text(method_policy),
                    opt_texts(status_codes),
                    opt_texts(error_kinds),
                    delays,
                );
                match r {
                    Ok(o) => {
                        &&& problem is None
                        &&& o.enabled == or_default(enabled, false)
                        &&& o.max_attempts == or_default(max_attempts, DEFAULT_RETRY_MAX_ATTEMPTS)
                        &&& o.max_duration == max_duration
                        &&& o.method_policy == match method_policy {
                            Some(m) => retry_method_policy_named(trim_seq(m@))->0,
                            None => HttpRetryMethodPolicy::IdempotentOnly,
                        }
                        &&& o.delay_strategy == match delay_strategy {
                            Some(d) => delay_plan_named(d@, delays)->0,
                            None => default_delay_plan(),
                        }
                        &&& match status_codes {
                            Some(v) => o.retry_status_codes matches Some(c) && strictly_increasing(
                                c@,
                            ) && forall|x: u16| c@.contains(x) <==> some_entry_is(texts(v@), x),
                            None => o.retry_status_codes is None,
                        }
                        &&& match error_kinds {
                            Some(v) => o.retry_error_kinds matches Some(k) && k@
                                == distinct_entry_kinds(texts(v@)),
                            None => o.retry_error_kinds is None,
                        }
                    },
                    Err(e) => problem == Some(e@),
                }
            }),
    {
        let mut opts = HttpRetryOptions::new();
        if let Some(v) = enabled {
            opts.enabled = v;
        }
        if let Some(v) = max_attempts {
            opts.max_attempts = v;
        }
        opts.max_duration = max_duration;
        if let Some(m) = method_policy {
            opts.method_policy = HttpRetryMethodPolicy::from_config_value(m)?;
        }
        if let Some(v) = status_codes {
            opts.retry_status_codes = Some(parse_retry_status_codes(v)?);
        }
        if let Some(v) = error_kinds {
            opts.retry_error_kinds = Some(parse_retry_error_kinds(v)?);
        }
        if let Some(d) = delay_strategy {
            let plan = parse_retry_delay_strategy(d, delays);
            proof {
                lemma_delay_plan_named_ignores_delays(d@, delays);
            }
            opts.delay_strategy = plan?;
        }
        opts.validate()?;
        Ok(opts)
    }

    /// A copy with the same settings.
    pub fn duplicate(&self) -> (r: Self)
        ensures
            r.enabled == self.enabled,
            r.max_attempts == self.max_attempts,
            r.max_duration == self.max_duration,
            r.delay_strategy == self.delay_strategy,
            r.method_policy == self.method_policy,
            opt_seq(r.retry_status_codes) == opt_seq(self.retry_status_codes),
            opt_seq(r.retry_error_kinds) == opt_seq(self.retry_error_kinds),
    {
        let retry_status_codes = match &self.retry_status_codes {
            Some(v) => {
                let mut out: Vec<u16> = Vec::new();
                let mut i: usize = 0;
                while i < v.len()
                    invariant
                        i <= v@.len(),
                        out@ == v@.take(i as int),
                    decreases v@.len() - i,
                {
                    out.push(v[i]);
                    i = i + 1;
                    assert(out@ =~= v@.take(i as int));
                }
                assert(v@.take(i as int) =~= v@);
                Some(out)
            },
            None => None,
        };
        let retry_error_kinds = match &self.retry_error_kinds {
            Some(v) => {
                let mut out: Vec<HttpErrorKind> = Vec::new();
                let mut i: usize = 0;
                while i < v.len()
                    invariant
                        i <= v@.len(),
                        out@ == v@.take(i as int),
                    decreases v@.len() - i,
                {
                    out.push(v[i]);
                    i = i + 1;
                    assert(out@ =~= v@.take(i as int));
                }
                assert(v@.take(i as int) =~= v@);
                Some(out)
            },
            None => None,
        };
        HttpRetryOptions {
            enabled: self.enabled,
            max_attempts: self.max_attempts,
            max_duration: self.max_duration,
            delay_strategy: self.delay_strategy,
            method_policy: self.method_policy,
            retry_status_codes,
            retry_error_kinds,
        }
    }

    /// The options a request runs with: the request's own switch and method
    /// policy replace the client's where the request sets them.
    pub fn resolve(&self, enabled: Option<bool>, method_policy: Option<HttpRetryMethodPolicy>) -> (r: Self)
        ensures
            r.enabled == or_default(enabled, self.enabled),
            r.method_policy == or_default(method_policy, self.method_policy),
            r.max_attempts == self.max_attempts,
            r.max_duration == self.max_duration,
            r.delay_strategy == self.delay_strategy,
            opt_seq(r.retry_status_codes) == opt_seq(self.retry_status_codes),
            opt_seq(r.retry_error_kinds) == opt_seq(self.retry_error_kinds),
    {
        let mut options = self.duplicate();
        if let Some(e) = enabled {
            options.enabled = e;
        }
        if let Some(p) = method_policy {
            options.method_policy = p;
        }
        options
    }

    /// Checks the attempt count (at least one attempt) and then the delay
    /// plan (see [`delay_plan_problem`]).
    pub fn validate(&self) -> (r: Result<(), HttpConfigError>)
        ensures
            r is Ok <==> retry_options_problem(*self) is None,
            r matches Err(e) ==> retry_options_problem(*self) == Some(e@),
    {
        if self.max_attempts == 0 {
            return Err(
                HttpConfigError::invalid_value(
                    "max_attempts",
                    "Retry max_attempts must be greater than 0",
                ),
            );
        }
        match self.delay_strategy {
            RetryDelayPlan::Random { min, max } => {
                if max.lt(&min) {
                    return Err(
                        HttpConfigError::invalid_value(
                            "delay_strategy",
                            "Retry random delay minimum must not exceed its maximum",
                        ),
                    );
                }
            },
            RetryDelayPlan::Exponential { initial, max } => {
                if max.lt(&initial) {
                    return Err(
                        HttpConfigError::invalid_value(
                            "delay_strategy",
                            "Retry exponential initial delay must not exceed its maximum",
                        ),
                    );
                }
            },
            _ => {},
        }
        Ok(())
    }
}

/// The problem of a delay plan, if any: a random plan whose minimum exceeds
/// its maximum, or an exponential plan whose initial delay exceeds its
/// maximum.
pub open spec fn delay_plan_problem(p: RetryDelayPlan) -> Option<Seq<char>> {
    match p {
        RetryDelayPlan::Random { min, max } => if min@ > max@ {
            Some("Retry random delay minimum must not exceed its maximum"@)
        } else {
            None
        },
        RetryDelayPlan::Exponential { initial, max } => if initial@ > max@ {
            Some("Retry exponential initial delay must not exceed its maximum"@)
        } else {
            None
        },
        _ => None,
    }
}

/// The first problem of retry options, if any: no attempt allowed, else a
/// problem of the delay plan at `delay_strategy`.
pub open spec fn retry_options_problem(o: HttpRetryOptions) -> Option<(HttpConfigErrorKind, Seq<char>, Seq<char>)> {
    if o.max_attempts == 0 {
        Some((HttpConfigErrorKind::InvalidValue, "max_attempts"@, "Retry max_attempts must be greater than 0"@))
    } else if delay_plan_problem(o.delay_strategy) is Some {
        Some((HttpConfigErrorKind::InvalidValue, "delay_strategy"@, delay_plan_problem(o.delay_strategy)->0))
    } else {
        None
    }
}

impl Default for HttpRetryOptions {
    /// Same as [`HttpRetryOptions::new`].
    fn default() -> (r: Self)
        ensures
            !r.enabled,
            r.max_attempts == DEFAULT_RETRY_MAX_ATTEMPTS,
            r.max_duration is None,
            r.delay_strategy == default_delay_plan(),
            r.method_policy == HttpRetryMethodPolicy::IdempotentOnly,
            r.retry_status_codes is None,
            r.retry_error_kinds is None,
    {
        Self::new()
    }
}

/// The parsed retry error kinds hold each kind once.
pub proof fn law_error_kinds_distinct(vs: Seq<Seq<char>>)
    ensures
        distinct_entry_kinds(vs).no_duplicates(),
    decreases vs.len(),
{
    if vs.len() > 0 {
        law_error_kinds_distinct(vs.drop_last());
    }
}

/// With no status set configured, exactly `429` and the statuses `500`
/// through `599` are retried; with no kind set configured, exactly the
/// connect, read, write and whole-request timeouts and transport failures
/// are.
pub proof fn law_default_retry_sets(status: u16, kind: HttpErrorKind)
    ensures
        status_retryable_under(status, None) <==> (status == 429 || (500 <= status && status
            <= 599)),
        kind_retryable_under(kind, None) <==> (kind == HttpErrorKind::ConnectTimeout || kind
            == HttpErrorKind::ReadTimeout || kind == HttpErrorKind::WriteTimeout || kind
            == HttpErrorKind::RequestTimeout || kind == HttpErrorKind::Transport),
{
}

/// The parsed retry status codes hold each code once.
pub proof fn law_status_codes_distinct(codes: Seq<u16>)
    requires
        strictly_increasing(codes),
    ensures
        codes.no_duplicates(),
{
    assert forall|i: int, j: int| 0 <= i < codes.len() && 0 <= j < codes.len() && i != j implies codes[i]
        != codes[j] by {
        if i < j {
        } else {
        }
    }
}

} // verus!
