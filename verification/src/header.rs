//! Header names and values: what the `http` crate accepts, and header lists
//! in which each name occurs once.
use vstd::prelude::*;

use crate::error::http_error::HttpError;
use crate::error::http_error_kind::HttpErrorKind;
use crate::options::http_config_error::HttpConfigError;
use crate::options::http_config_error_kind::HttpConfigErrorKind;
use crate::text::{is_ascii_seq, push_str, to_lowercase};

verus! {

/// The longest header name the `http` crate accepts, in bytes.
pub const MAX_HEADER_NAME_LEN: usize = 65535;

/// A character allowed in a header name: an ASCII letter or digit, or one of
/// ``!#$%&'*+-.^_`|~``.
pub open spec fn is_header_name_char(c: char) -> bool {
    ('a' <= c && c <= 'z') || ('A' <= c && c <= 'Z') || ('0' <= c && c <= '9') || c == '!' || c
        == '#' || c == '$' || c == '%' || c == '&' || c == '\'' || c == '*' || c == '+' || c == '-'
        || c == '.' || c == '^' || c == '_' || c == '`' || c == '|' || c == '~'
}

/// `name` is a header name the `http` crate accepts.
pub open spec fn header_name_ok(name: Seq<char>) -> bool {
    &&& 0 < name.len() <= MAX_HEADER_NAME_LEN
    &&& forall|i: int| 0 <= i < name.len() ==> is_header_name_char(#[trigger] name[i])
}

/// ASCII upper-case letters mapped to lower case.
pub open spec fn ascii_lower(c: char) -> char {
    if 'A' <= c && c <= 'Z' {
        ((c as u32) + 32) as char
    } else {
        c
    }
}

/// The canonical (lower-case) form of a header name.
pub open spec fn header_name_canonical(name: Seq<char>) -> Seq<char> {
    name.map_values(|c: char| ascii_lower(c))
}

/// A character allowed in a header value: anything but control characters
/// other than horizontal tab.
pub open spec fn is_header_value_char(c: char) -> bool {
    ((c as u32) >= 32 && (c as u32) != 127) || c == '\t'
}

/// `value` is a header value the `http` crate accepts.
pub open spec fn header_value_ok(value: Seq<char>) -> bool {
    forall|i: int| 0 <= i < value.len() ==> is_header_value_char(#[trigger] value[i])
}

/// Whether `name` is a header name the `http` crate accepts
/// (`HeaderName::from_bytes`: 1 to 65535 bytes, each an ASCII letter, digit
/// or one of ``!#$%&'*+-.^_`|~``), and if so its canonical form, with ASCII
/// letters lowered.
pub fn parse_header_name(name: &str) -> (r: Option<String>)
    ensures
        match r {
            Some(n) => header_name_ok(name@) && n@ == header_name_canonical(name@),
            None => !header_name_ok(name@),
        },
{
    let n = name.unicode_len();
    if n == 0 || n > MAX_HEADER_NAME_LEN {
        return None;
    }
    let mut i: usize = 0;
    while i < n
        invariant
            n == name@.len(),
            i <= n,
            forall|j: int| 0 <= j < i ==> is_header_name_char(#[trigger] name@[j]),
        decreases n - i,
    {
        let c = name.get_char(i);
        let ok = ('a' <= c && c <= 'z') || ('A' <= c && c <= 'Z') || ('0' <= c && c <= '9') || c == '!'
            || c == '#' || c == '$' || c == '%' || c == '&' || c == '\'' || c == '*' || c == '+' || c
            == '-' || c == '.' || c == '^' || c == '_' || c == '`' || c == '|' || c == '~';
        if !ok {
            return None;
        }
        i = i + 1;
    }
    assert(is_ascii_seq(name@)) by {
        assert forall|j: int| 0 <= j < name@.len() implies (#[trigger] name@[j] as u32) < 128 by {
            assert(is_header_name_char(name@[j]));
        }
    }
    let lowered = to_lowercase(name);
    assert(lowered@ =~= header_name_canonical(name@));
    Some(lowered)
}

/// Whether `value` is a header value the `http` crate accepts
/// (`HeaderValue::from_str`: no byte below 32 other than tab, and no byte
/// 127; bytes of non-ASCII characters are all above 127).
pub fn is_valid_header_value(value: &str) -> (r: bool)
    ensures
        r == header_value_ok(value@),
{
    let n = value.unicode_len();
    let mut i: usize = 0;
    while i < n
        invariant
            n == value@.len(),
            i <= n,
            forall|j: int| 0 <= j < i ==> is_header_value_char(#[trigger] value@[j]),
        decreases n - i,
    {
        let c = value.get_char(i);
        let code = c as u32;
        if !((code >= 32 && code != 127) || c == '\t') {
            return false;
        }
        i = i + 1;
    }
    true
}

/// A header list as name/value pairs.
pub type HeaderList = Seq<(Seq<char>, Seq<char>)>;

/// The view of a header list.
pub open spec fn header_list_view(v: Seq<(String, String)>) -> HeaderList {
    v.map_values(|e: (String, String)| (e.0@, e.1@))
}

/// The position of `name` in a header list, or its length when absent.
pub open spec fn header_index(m: HeaderList, name: Seq<char>) -> int
    decreases m.len(),
{
    if m.len() == 0 {
        0
    } else if header_index(m.drop_last(), name) < m.len() - 1 {
        header_index(m.drop_last(), name)
    } else if m.last().0 == name {
        m.len() - 1
    } else {
        m.len() as int
    }
}

/// Sets `name` to `value`: the entry of that name is replaced in place, or a
/// new entry is appended.
pub open spec fn header_list_insert(m: HeaderList, name: Seq<char>, value: Seq<char>) -> HeaderList {
    let i = header_index(m, name);
    if i < m.len() {
        m.update(i, (name, value))
    } else {
        m.push((name, value))
    }
}

proof fn lemma_header_index(m: HeaderList, name: Seq<char>)
    ensures
        0 <= header_index(m, name) <= m.len(),
        header_index(m, name) < m.len() ==> m[header_index(m, name)].0 == name,
        forall|j: int| 0 <= j < header_index(m, name) ==> m[j].0 != name,
    decreases m.len(),
{
    if m.len() > 0 {
        lemma_header_index(m.drop_last(), name);
        assert forall|j: int| 0 <= j < header_index(m, name) implies m[j].0 != name by {
            if j < m.len() - 1 {
                assert(m[j] == m.drop_last()[j]);
            }
        }
        if header_index(m, name) < m.len() - 1 {
            assert(m[header_index(m, name)] == m.drop_last()[header_index(m, name)]);
        }
    }
}

/// Sets `name` to `value` in a header list (see [`header_list_insert`]).
pub fn insert_header(headers: &mut Vec<(String, String)>, name: String, value: String)
    ensures
        header_list_view(final(headers)@) == header_list_insert(
            header_list_view(old(headers)@),
            name@,
            value@,
        ),
{
    let ghost m = header_list_view(headers@);
    proof {
        lemma_header_index(m, name@);
    }
    let mut i: usize = 0;
    while i < headers.len()
        invariant
            i <= headers@.len(),
            m == header_list_view(headers@),
            m == header_list_view(old(headers)@),
            m.len() == headers@.len(),
            forall|j: int| 0 <= j < i ==> m[j].0 != name@,
        decreases headers@.len() - i,
    {
        if headers[i].0 == name {
            proof {
                assert(m[i as int].0 == name@);
                lemma_header_index(m, name@);
                if header_index(m, name@) < i {
                    assert(m[header_index(m, name@)].0 != name@);
                }
                assert(header_index(m, name@) == i);
            }
            headers.set(i, (name, value));
            proof {
                assert(header_list_view(headers@) =~= m.update(i as int, (name@, value@)));
            }
            return;
        }
        i = i + 1;
    }
    proof {
        lemma_header_index(m, name@);
        if header_index(m, name@) < m.len() {
            assert(m[header_index(m, name@)].0 == name@);
        }
    }
    headers.push((name, value));
    proof {
        assert(header_list_view(headers@) =~= m.push((name@, value@)));
    }
}

/// The header list obtained by setting each entry in turn.
pub open spec fn header_list_from(es: HeaderList) -> HeaderList
    decreases es.len(),
{
    if es.len() == 0 {
        Seq::empty()
    } else {
        let m = header_list_from(es.drop_last());
        header_list_insert(m, header_name_canonical(es.last().0), es.last().1)
    }
}

/// The rejection of one configured header entry found under `path`, if any:
/// a bad name, else a bad value.
pub open spec fn header_entry_problem(path: Seq<char>, e: (Seq<char>, Seq<char>)) -> Option<
    (HttpConfigErrorKind, Seq<char>, Seq<char>),
> {
    if !header_name_ok(e.0) {
        Some(
            (
                HttpConfigErrorKind::InvalidHeader,
                path + "."@ + e.0,
                "Invalid header name '"@ + e.0 + "': invalid HTTP header name"@,
            ),
        )
    } else if !header_value_ok(e.1) {
        Some(
            (
                HttpConfigErrorKind::InvalidHeader,
                path + "."@ + e.0,
                "Invalid header value for '"@ + e.0 + "': failed to parse header value"@,
            ),
        )
    } else {
        None
    }
}

/// The rejection of the first bad entry, if any.
pub open spec fn first_header_problem(path: Seq<char>, es: HeaderList) -> Option<
    (HttpConfigErrorKind, Seq<char>, Seq<char>),
>
    decreases es.len(),
{
    if es.len() == 0 {
        None
    } else {
        match first_header_problem(path, es.drop_last()) {
            Some(p) => Some(p),
            None => header_entry_problem(path, es.last()),
        }
    }
}

proof fn lemma_first_header_problem_prefix(path: Seq<char>, es: HeaderList, k: int)
    requires
        0 < k <= es.len(),
        first_header_problem(path, es.take(k - 1)) is None,
        header_entry_problem(path, es[k - 1]) is Some,
    ensures
        first_header_problem(path, es) == header_entry_problem(path, es[k - 1]),
    decreases es.len(),
{
    if k == es.len() {
        assert(es.drop_last() =~= es.take(k - 1));
    } else {
        assert(es.drop_last().take(k - 1) =~= es.take(k - 1));
        assert(es.drop_last()[k - 1] == es[k - 1]);
        lemma_first_header_problem_prefix(path, es.drop_last(), k);
    }
}

/// Builds a header list from configured `(name, value)` entries found under
/// `path`, in order: names are canonicalised and a later entry of the same
/// name replaces an earlier one. The first bad name or value is an
/// invalid-header error at `path.<name>`.
pub fn header_list_from_entries(path: &str, entries: &[(String, String)]) -> (r: Result<
    Vec<(String, String)>,
    HttpConfigError,
>)
    ensures
        match r {
            Ok(v) => first_header_problem(path@, header_list_view(entries@)) is None
                && header_list_view(v@) == header_list_from(header_list_view(entries@)),
            Err(e) => first_header_problem(path@, header_list_view(entries@)) == Some(e@),
        },
{
    let ghost es = header_list_view(entries@);
    let mut out: Vec<(String, String)> = Vec::new();
    let mut idx: usize = 0;
    while idx < entries.len()
        invariant
            idx <= entries@.len(),
            es == header_list_view(entries@),
            es.len() == entries@.len(),
            first_header_problem(path@, es.take(idx as int)) is None,
            header_list_view(out@) == header_list_from(es.take(idx as int)),
        decreases entries@.len() - idx,
    {
        assert(es.take(idx + 1).drop_last() =~= es.take(idx as int));
        assert(es[idx as int] == (entries@[idx as int].0@, entries@[idx as int].1@));
        let name = &entries[idx].0;
        let value = &entries[idx].1;
        let mut entry_path = path.to_owned();
        push_str(&mut entry_path, ".");
        push_str(&mut entry_path, name.as_str());
        let canonical = match parse_header_name(name.as_str()) {
            Some(n) => n,
            None => {
                let mut message = "Invalid header name '".to_owned();
                push_str(&mut message, name.as_str());
                push_str(&mut message, "': invalid HTTP header name");
                proof {
                    lemma_first_header_problem_prefix(path@, es, idx + 1);
                }
                return Err(
                    HttpConfigError::from_parts(HttpConfigErrorKind::InvalidHeader, entry_path, message),
                );
            },
        };
        if !is_valid_header_value(value.as_str()) {
            let mut message = "Invalid header value for '".to_owned();
            push_str(&mut message, name.as_str());
            push_str(&mut message, "': failed to parse header value");
            proof {
                lemma_first_header_problem_prefix(path@, es, idx + 1);
            }
            return Err(
                HttpConfigError::from_parts(HttpConfigErrorKind::InvalidHeader, entry_path, message),
            );
        }
        insert_header(&mut out, canonical, value.clone());
        idx = idx + 1;
    }
    assert(es.take(idx as int) =~= es);
    Ok(out)
}

/// No two entries of a header list share a name.
pub open spec fn names_distinct(m: HeaderList) -> bool {
    forall|i: int, j: int| 0 <= i < j < m.len() ==> m[i].0 != m[j].0
}

/// Setting a header keeps names distinct.
pub proof fn lemma_insert_keeps_names_distinct(m: HeaderList, name: Seq<char>, value: Seq<char>)
    requires
        names_distinct(m),
    ensures
        names_distinct(header_list_insert(m, name, value)),
{
    lemma_header_index(m, name);
    let r = header_list_insert(m, name, value);
    let k = header_index(m, name);
    assert forall|i: int, j: int| 0 <= i < j < r.len() implies r[i].0 != r[j].0 by {
        if k < m.len() {
            if i == k {
                assert(r[j].0 == m[j].0);
            } else if j == k {
                assert(r[i].0 == m[i].0);
            }
        } else if j == m.len() {
            assert(r[i].0 == m[i].0);
        }
    }
}

/// A header list built from configured entries names each header once, and
/// the value of each name is the last one configured for it.
pub proof fn law_header_list_names_distinct(es: HeaderList)
    ensures
        names_distinct(header_list_from(es)),
    decreases es.len(),
{
    if es.len() > 0 {
        law_header_list_names_distinct(es.drop_last());
        lemma_insert_keeps_names_distinct(
            header_list_from(es.drop_last()),
            header_name_canonical(es.last().0),
            es.last().1,
        );
    }
}

/// The rejection message of a `(name, value)` header pair passed through the
/// API, if any: a bad name, else a bad value.
pub open spec fn header_pair_problem(name: Seq<char>, value: Seq<char>) -> Option<Seq<char>> {
    if !header_name_ok(name) {
        Some("Invalid header name '"@ + name + "': invalid HTTP header name"@)
    } else if !header_value_ok(value) {
        Some("Invalid header value for '"@ + name + "': failed to parse header value"@)
    } else {
        None
    }
}

/// Validates one header pair: the canonical name and the value, or an
/// error of kind `Other` naming what was wrong.
pub fn parse_header(name: &str, value: &str) -> (r: Result<(String, String), HttpError>)
    ensures
        match r {
            Ok(p) => header_pair_problem(name@, value@) is None && p.0@ == header_name_canonical(
                name@,
            ) && p.1@ == value@,
            Err(e) => header_pair_problem(name@, value@) == Some(e.message@) && e.is_bare(
                HttpErrorKind::Other,
                e.message@,
            ),
        },
{
    let canonical = match parse_header_name(name) {
        Some(n) => n,
        None => {
            let mut message = "Invalid header name '".to_owned();
            push_str(&mut message, name);
            push_str(&mut message, "': invalid HTTP header name");
            return Err(HttpError::with_message(HttpErrorKind::Other, message));
        },
    };
    if !is_valid_header_value(value) {
        let mut message = "Invalid header value for '".to_owned();
        push_str(&mut message, name);
        push_str(&mut message, "': failed to parse header value");
        return Err(HttpError::with_message(HttpErrorKind::Other, message));
    }
    Ok((canonical, value.to_owned()))
}

/// The view of a batch of header pairs.
pub open spec fn header_pairs_view(v: Seq<(&str, &str)>) -> HeaderList {
    v.map_values(|e: (&str, &str)| (e.0@, e.1@))
}

/// The rejection message of the first bad pair of a batch, if any.
pub open spec fn first_pair_problem(es: HeaderList) -> Option<Seq<char>>
    decreases es.len(),
{
    if es.len() == 0 {
        None
    } else {
        match first_pair_problem(es.drop_last()) {
            Some(p) => Some(p),
            None => header_pair_problem(es.last().0, es.last().1),
        }
    }
}

/// The pairs of a batch with canonical names.
pub open spec fn canonical_pairs(es: HeaderList) -> HeaderList {
    es.map_values(|e: (Seq<char>, Seq<char>)| (header_name_canonical(e.0), e.1))
}

/// `m` with each pair of `es` set in turn.
pub open spec fn header_list_set_all(m: HeaderList, es: HeaderList) -> HeaderList
    decreases es.len(),
{
    if es.len() == 0 {
        m
    } else {
        header_list_insert(header_list_set_all(m, es.drop_last()), es.last().0, es.last().1)
    }
}

proof fn lemma_first_pair_problem_prefix(es: HeaderList, k: int)
    requires
        0 < k <= es.len(),
        first_pair_problem(es.take(k - 1)) is None,
        header_pair_problem(es[k - 1].0, es[k - 1].1) is Some,
    ensures
        first_pair_problem(es) == header_pair_problem(es[k - 1].0, es[k - 1].1),
    decreases es.len(),
{
    if k == es.len() {
        assert(es.drop_last() =~= es.take(k - 1));
    } else {
        assert(es.drop_last().take(k - 1) =~= es.take(k - 1));
        assert(es.drop_last()[k - 1] == es[k - 1]);
        lemma_first_pair_problem_prefix(es.drop_last(), k);
    }
}

/// Validates a batch of header pairs as a whole: all canonical pairs in
/// order, or the error of the first bad one.
pub fn parse_headers(headers: &[(&str, &str)]) -> (r: Result<Vec<(String, String)>, HttpError>)
    ensures
        match r {
            Ok(v) => first_pair_problem(header_pairs_view(headers@)) is None && header_list_view(v@)
                == canonical_pairs(header_pairs_view(headers@)),
            Err(e) => first_pair_problem(header_pairs_view(headers@)) == Some(e.message@) && e.is_bare(
                HttpErrorKind::Other,
                e.message@,
            ),
        },
{
    let ghost es = header_pairs_view(headers@);
    let mut out: Vec<(String, String)> = Vec::new();
    let mut i: usize = 0;
    while i < headers.len()
        invariant
            i <= headers@.len(),
            es == header_pairs_view(headers@),
            es.len() == headers@.len(),
            first_pair_problem(es.take(i as int)) is None,
            header_list_view(out@) == canonical_pairs(es.take(i as int)),
        decreases headers@.len() - i,
    {
        assert(es.take(i + 1).drop_last() =~= es.take(i as int));
        assert(es[i as int] == (headers@[i as int].0@, headers@[i as int].1@));
        let (name, value) = headers[i];
        match parse_header(name, value) {
            Ok(p) => {
                let ghost prev = header_list_view(out@);
                let ghost pv = (p.0@, p.1@);
                out.push(p);
                assert(header_list_view(out@) =~= prev.push(pv));
                assert(canonical_pairs(es.take(i + 1)) =~= canonical_pairs(es.take(i as int)).push(
                    (header_name_canonical(es[i as int].0), es[i as int].1),
                ));
            },
            Err(e) => {
                proof {
                    lemma_first_pair_problem_prefix(es, i + 1);
                }
                return Err(e);
            },
        }
        i = i + 1;
    }
    assert(es.take(i as int) =~= es);
    Ok(out)
}

/// Sets each pair of `pairs` in turn in a header list.
pub fn set_headers(headers: &mut Vec<(String, String)>, pairs: Vec<(String, String)>)
    ensures
        header_list_view(final(headers)@) == header_list_set_all(
            header_list_view(old(headers)@),
            header_list_view(pairs@),
        ),
{
    let ghost m0 = header_list_view(headers@);
    let ghost ps = header_list_view(pairs@);
    let mut j: usize = 0;
    while j < pairs.len()
        invariant
            j <= pairs@.len(),
            ps == header_list_view(pairs@),
            ps.len() == pairs@.len(),
            header_list_view(headers@) == header_list_set_all(m0, ps.take(j as int)),
        decreases pairs@.len() - j,
    {
        assert(ps.take(j + 1).drop_last() =~= ps.take(j as int));
        assert(ps[j as int] == (pairs@[j as int].0@, pairs@[j as int].1@));
        let name = pairs[j].0.clone();
        let value = pairs[j].1.clone();
        insert_header(headers, name, value);
        j = j + 1;
    }
    assert(ps.take(j as int) =~= ps);
}

} // verus!
