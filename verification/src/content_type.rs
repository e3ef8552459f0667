//! Content-Type and header-parameter parsing helpers.
use vstd::prelude::*;
use vstd::string::StringSliceAdditionalSpecFns;

use crate::text::{
    str_texts,
    eq_ignore_ascii_case, eq_ignore_ascii_case_seq, find_char, first_index_of,
    lemma_first_index_of, starts_with_ignore_ascii_case, str_starts_with_ignore_ascii_case, trim,
    trim_seq,
};

verus! {

/// Longest multipart boundary accepted, in bytes.
pub const MAX_MULTIPART_BOUNDARY_LEN: usize = 70;

/// The media type of a `Content-Type` value: the text before the first `;`,
/// trimmed.
pub open spec fn media_type_seq(content_type: Seq<char>) -> Seq<char> {
    trim_seq(content_type.take(first_index_of(content_type, ';')))
}

/// Returns the media type portion of a `Content-Type` header value.
pub fn media_type(content_type: &str) -> (r: &str)
    ensures
        r@ == media_type_seq(content_type@),
{
    let end = find_char(content_type, ';');
    proof {
        lemma_first_index_of(content_type@, ';');
    }
    let head = content_type.substring_char(0, end);
    assert(head@ =~= content_type@.take(end as int));
    trim(head)
}

/// Returns whether `content_type` has the expected media type, ignoring
/// ASCII case.
pub fn has_media_type(content_type: &str, expected: &str) -> (r: bool)
    ensures
        r == eq_ignore_ascii_case_seq(media_type_seq(content_type@), expected@),
{
    eq_ignore_ascii_case(media_type(content_type), expected)
}

/// Returns whether `content_type` is the SSE media type `text/event-stream`.
pub fn is_sse(content_type: &str) -> (r: bool)
    ensures
        r == eq_ignore_ascii_case_seq(media_type_seq(content_type@), "text/event-stream"@),
{
    has_media_type(content_type, "text/event-stream")
}

/// Returns whether a content type declares any `multipart/*` media type.
pub fn is_multipart(content_type: &str) -> (r: bool)
    ensures
        r == starts_with_ignore_ascii_case(media_type_seq(content_type@), "multipart/"@),
{
    str_starts_with_ignore_ascii_case(media_type(content_type), "multipart/")
}

/// Bytes allowed in an unquoted multipart boundary.
pub open spec fn is_boundary_byte(byte: u8) -> bool {
    ||| (48 <= byte && byte <= 57)
    ||| (65 <= byte && byte <= 90)
    ||| (97 <= byte && byte <= 122)
    ||| byte == 39 || byte == 40 || byte == 41 || byte == 43 || byte == 95
    ||| byte == 44 || byte == 45 || byte == 46 || byte == 47 || byte == 58
    ||| byte == 61 || byte == 63
}

/// Returns whether one byte is allowed in a multipart boundary: ASCII
/// alphanumerics and `'()+_,-./:=?`.
pub fn is_valid_multipart_boundary_byte(byte: u8) -> (r: bool)
    ensures
        r == is_boundary_byte(byte),
{
    (48 <= byte && byte <= 57) || (65 <= byte && byte <= 90) || (97 <= byte && byte <= 122)
        || byte == 39 || byte == 40 || byte == 41 || byte == 43 || byte == 95 || byte == 44
        || byte == 45 || byte == 46 || byte == 47 || byte == 58 || byte == 61 || byte == 63
}

/// A boundary is valid when it has 1 to 70 bytes, each an allowed byte.
pub open spec fn valid_multipart_boundary(bytes: Seq<u8>) -> bool {
    &&& 1 <= bytes.len() <= MAX_MULTIPART_BOUNDARY_LEN
    &&& forall|i: int| 0 <= i < bytes.len() ==> is_boundary_byte(#[trigger] bytes[i])
}

/// Returns whether `boundary` is safe for unquoted multipart Content-Type use.
pub fn is_valid_multipart_boundary(boundary: &str) -> (r: bool)
    ensures
        r == valid_multipart_boundary(boundary.spec_bytes()),
{
    let bytes = boundary.as_bytes();
    let len = bytes.len();
    if len < 1 || len > MAX_MULTIPART_BOUNDARY_LEN {
        return false;
    }
    let mut i: usize = 0;
    while i < len
        invariant
            bytes@ == boundary.spec_bytes(),
            len == bytes@.len(),
            i <= len,
            forall|j: int| 0 <= j < i ==> is_boundary_byte(#[trigger] bytes@[j]),
        decreases len - i,
    {
        if !is_valid_multipart_boundary_byte(bytes[i]) {
            return false;
        }
        i = i + 1;
    }
    true
}

/// Splits a header value at `;` outside double quotes, trimming each
/// segment. Inside quotes a backslash escapes the next character. The scan
/// fails (`None`) when a quote or an escape is left open.
pub open spec fn scan_segments(
    s: Seq<char>,
    i: int,
    start: int,
    in_quote: bool,
    escaped: bool,
    acc: Seq<Seq<char>>,
) -> Option<Seq<Seq<char>>>
    decreases s.len() - i,
{
    if i >= s.len() {
        if in_quote || escaped {
            None
        } else {
            Some(acc.push(trim_seq(s.subrange(start, s.len() as int))))
        }
    } else if escaped {
        scan_segments(s, i + 1, start, in_quote, false, acc)
    } else if in_quote && s[i] == '\\' {
        scan_segments(s, i + 1, start, in_quote, true, acc)
    } else if s[i] == '"' {
        scan_segments(s, i + 1, start, !in_quote, false, acc)
    } else if s[i] == ';' && !in_quote {
        scan_segments(s, i + 1, i + 1, in_quote, false, acc.push(trim_seq(s.subrange(start, i))))
    } else {
        scan_segments(s, i + 1, start, in_quote, false, acc)
    }
}

/// The trimmed parameter segments of a header value, or `None` when its
/// quoting is malformed.
pub open spec fn parameter_segments(s: Seq<char>) -> Option<Seq<Seq<char>>> {
    scan_segments(s, 0, 0, false, false, seq![])
}

/// Splits header parameters without treating quoted semicolons as separators.
pub fn header_parameter_segments(value: &str) -> (r: Option<Vec<&str>>)
    ensures
        match r {
            Some(v) => parameter_segments(value@) == Some(str_texts(v@)),
            None => parameter_segments(value@) is None,
        },
{
    let n = value.unicode_len();
    let mut segments: Vec<&str> = Vec::new();
    let mut start: usize = 0;
    let mut in_quote = false;
    let mut escaped = false;
    let mut i: usize = 0;
    assert(str_texts(segments@) =~= seq![]);
    while i < n
        invariant
            n == value@.len(),
            start <= i <= n,
            parameter_segments(value@) == scan_segments(
                value@,
                i as int,
                start as int,
                in_quote,
                escaped,
                str_texts(segments@),
            ),
        decreases n - i,
    {
        let ch = value.get_char(i);
        if escaped {
            escaped = false;
        } else if in_quote && ch == '\\' {
            escaped = true;
        } else if ch == '"' {
            in_quote = !in_quote;
        } else if ch == ';' && !in_quote {
            let seg = trim(value.substring_char(start, i));
            let ghost old_segments = segments@;
            segments.push(seg);
            assert(str_texts(segments@) =~= str_texts(old_segments).push(seg@));
            start = i + 1;
        }
        i = i + 1;
    }
    if in_quote || escaped {
        return None;
    }
    let last = trim(value.substring_char(start, n));
    let ghost old_segments = segments@;
    segments.push(last);
    assert(str_texts(segments@) =~= str_texts(old_segments).push(last@));
    Some(segments)
}

/// Control characters that may not appear in a decoded parameter.
pub open spec fn is_line_break(c: char) -> bool {
    c == '\r' || c == '\n'
}

/// Removes backslash escapes from `s[i..]`; fails on a dangling backslash or
/// on a CR/LF in the decoded text.
pub open spec fn unescape_from(s: Seq<char>, i: int) -> Option<Seq<char>>
    decreases s.len() - i,
{
    if i >= s.len() {
        Some(seq![])
    } else if s[i] == '\\' {
        if i + 1 >= s.len() || is_line_break(s[i + 1]) {
            None
        } else {
            match unescape_from(s, i + 2) {
                Some(t) => Some(seq![s[i + 1]] + t),
                None => None,
            }
        }
    } else if is_line_break(s[i]) {
        None
    } else {
        match unescape_from(s, i + 1) {
            Some(t) => Some(seq![s[i]] + t),
            None => None,
        }
    }
}

/// Decoded header parameter value: unquoted text is trimmed; quoted text
/// must end with a quote and is unescaped.
pub open spec fn decode_parameter_seq(v: Seq<char>) -> Option<Seq<char>> {
    if v.len() == 0 || v[0] != '"' {
        Some(trim_seq(v))
    } else if v.len() < 2 || v.last() != '"' {
        None
    } else {
        unescape_from(v.subrange(1, v.len() - 1), 0)
    }
}

spec fn prepend_opt(prefix: Seq<char>, o: Option<Seq<char>>) -> Option<Seq<char>> {
    match o {
        Some(t) => Some(prefix + t),
        None => None,
    }
}

/// Decodes a simple HTTP header parameter value.
pub fn decode_header_parameter(value: &str) -> (r: Option<String>)
    ensures
        match r {
            Some(s) => decode_parameter_seq(value@) == Some(s@),
            None => decode_parameter_seq(value@) is None,
        },
{
    let n = value.unicode_len();
    if n == 0 || value.get_char(0) != '"' {
        return Some(trim(value).to_owned());
    }
    if n < 2 || value.get_char(n - 1) != '"' {
        return None;
    }
    let ghost inner = value@.subrange(1, n - 1);
    assert(value@[0] == '"' && value@.last() == '"');
    let mut result = String::new();
    let mut i: usize = 1;
    assert(result@ + inner =~= inner);
    while i < n - 1
        invariant
            n == value@.len(),
            n >= 2,
            inner == value@.subrange(1, n - 1),
            1 <= i <= n - 1,
            decode_parameter_seq(value@) == unescape_from(inner, 0),
            unescape_from(inner, 0) == prepend_opt(result@, unescape_from(inner, i - 1)),
        decreases n - i,
    {
        let ch = value.get_char(i);
        assert(inner[i - 1] == ch);
        if ch == '\\' {
            if i + 1 >= n - 1 {
                return None;
            }
            let next = value.get_char(i + 1);
            assert(inner[i as int] == next);
            if next == '\r' || next == '\n' {
                return None;
            }
            let piece = value.substring_char(i + 1, i + 2);
            assert(piece@ =~= seq![next]);
            let ghost before = result@;
            result.append(piece);
            proof {
                match unescape_from(inner, i + 1) {
                    Some(t) => {
                        assert(before + (seq![next] + t) =~= (before + seq![next]) + t);
                    },
                    None => {},
                }
            }
            i = i + 2;
        } else {
            if ch == '\r' || ch == '\n' {
                return None;
            }
            let piece = value.substring_char(i, i + 1);
            assert(piece@ =~= seq![ch]);
            let ghost before = result@;
            result.append(piece);
            proof {
                match unescape_from(inner, i as int) {
                    Some(t) => {
                        assert(before + (seq![ch] + t) =~= (before + seq![ch]) + t);
                    },
                    None => {},
                }
            }
            i = i + 1;
        }
    }
    assert(result@ + seq![] =~= result@);
    Some(result)
}

} // verus!

verus! {

/// Segment `seg` is a `name=value` parameter whose (trimmed) name matches
/// `name` ignoring ASCII case.
pub open spec fn names_parameter(seg: Seq<char>, name: Seq<char>) -> bool {
    let k = first_index_of(seg, '=');
    k < seg.len() && eq_ignore_ascii_case_seq(trim_seq(seg.take(k)), name)
}

/// The raw text after the first `=` of a parameter segment.
pub open spec fn raw_parameter_value(seg: Seq<char>) -> Seq<char> {
    seg.skip(first_index_of(seg, '=') + 1)
}

/// Index of the first segment at or after `k` that names `name`, or
/// `segs.len()` when there is none.
pub open spec fn first_parameter_index(segs: Seq<Seq<char>>, k: int, name: Seq<char>) -> int
    decreases segs.len() - k,
{
    if k >= segs.len() {
        segs.len() as int
    } else if names_parameter(segs[k], name) {
        k
    } else {
        first_parameter_index(segs, k + 1, name)
    }
}

/// Value of parameter `name` in header value `value`: the decoded value of
/// the first parameter segment (after the media type) with that name.
pub open spec fn parameter_seq(value: Seq<char>, name: Seq<char>) -> Option<Seq<char>> {
    match parameter_segments(value) {
        None => None,
        Some(segs) => {
            let k = first_parameter_index(segs, 1, name);
            if k < segs.len() {
                decode_parameter_seq(trim_seq(raw_parameter_value(segs[k])))
            } else {
                None
            }
        },
    }
}

/// Whether a parameter segment (after the media type) names `name`; `None`
/// when the quoting is malformed.
pub open spec fn has_parameter_name_seq(value: Seq<char>, name: Seq<char>) -> Option<bool> {
    match parameter_segments(value) {
        None => None,
        Some(segs) => Some(names_some_parameter(segs, name)),
    }
}

/// Some segment after the media type names `name`.
pub open spec fn names_some_parameter(segs: Seq<Seq<char>>, name: Seq<char>) -> bool {
    exists|k: int| 1 <= k < segs.len() && #[trigger] names_parameter(segs[k], name)
}

/// [`first_parameter_index`] lies in range, names the parameter when in
/// range, and no segment before it does.
pub proof fn lemma_first_parameter_index(segs: Seq<Seq<char>>, k: int, name: Seq<char>)
    requires
        0 <= k,
    ensures
        k <= first_parameter_index(segs, k, name) <= segs.len() || (k > segs.len()
            && first_parameter_index(segs, k, name) == segs.len()),
        first_parameter_index(segs, k, name) < segs.len() ==> names_parameter(
            segs[first_parameter_index(segs, k, name)],
            name,
        ),
        forall|j: int|
            k <= j < first_parameter_index(segs, k, name) ==> !#[trigger] names_parameter(
                segs[j],
                name,
            ),
    decreases segs.len() - k,
{
    if k < segs.len() && !names_parameter(segs[k], name) {
        lemma_first_parameter_index(segs, k + 1, name);
    }
}

/// Splits `seg` at its first `=`: the trimmed name and the raw value.
fn split_parameter<'a>(seg: &'a str) -> (r: Option<(&'a str, &'a str)>)
    ensures
        match r {
            Some((name, raw)) => {
                &&& first_index_of(seg@, '=') < seg@.len()
                &&& name@ == trim_seq(seg@.take(first_index_of(seg@, '=')))
                &&& raw@ == raw_parameter_value(seg@)
            },
            None => first_index_of(seg@, '=') == seg@.len(),
        },
{
    let k = find_char(seg, '=');
    let n = seg.unicode_len();
    proof {
        lemma_first_index_of(seg@, '=');
    }
    if k == n {
        return None;
    }
    let head = seg.substring_char(0, k);
    assert(head@ =~= seg@.take(k as int));
    let raw = seg.substring_char(k + 1, n);
    assert(raw@ =~= seg@.skip(k + 1));
    Some((trim(head), raw))
}

/// Extracts one semicolon-separated header parameter.
pub fn parameter(value: &str, parameter_name: &str) -> (r: Option<String>)
    ensures
        match r {
            Some(s) => parameter_seq(value@, parameter_name@) == Some(s@),
            None => parameter_seq(value@, parameter_name@) is None,
        },
{
    let segments = match header_parameter_segments(value) {
        Some(segments) => segments,
        None => return None,
    };
    let ghost segs = str_texts(segments@);
    let len = segments.len();
    let mut k: usize = 1;
    while k < len
        invariant
            len == segments@.len(),
            segs == str_texts(segments@),
            parameter_segments(value@) == Some(segs),
            1 <= k,
            first_parameter_index(segs, 1, parameter_name@) == first_parameter_index(
                segs,
                k as int,
                parameter_name@,
            ),
        decreases len - k,
    {
        let seg = segments[k];
        assert(segs[k as int] == seg@);
        match split_parameter(seg) {
            None => {},
            Some((name, raw)) => {
                if eq_ignore_ascii_case(name, parameter_name) {
                    return match decode_header_parameter(trim(raw)) {
                        Some(s) => Some(s),
                        None => None,
                    };
                }
            },
        }
        k = k + 1;
    }
    None
}

/// Returns whether a header value declares a parameter name.
pub fn has_parameter_name(value: &str, parameter_name: &str) -> (r: Option<bool>)
    ensures
        r == has_parameter_name_seq(value@, parameter_name@),
{
    let segments = match header_parameter_segments(value) {
        Some(segments) => segments,
        None => return None,
    };
    let ghost segs = str_texts(segments@);
    let len = segments.len();
    let mut k: usize = 1;
    while k < len
        invariant
            len == segments@.len(),
            segs == str_texts(segments@),
            parameter_segments(value@) == Some(segs),
            1 <= k,
            forall|j: int| 1 <= j < k ==> !#[trigger] names_parameter(segs[j], parameter_name@),
        decreases len - k,
    {
        let seg = segments[k];
        assert(segs[k as int] == seg@);
        match split_parameter(seg) {
            None => {},
            Some((name, _raw)) => {
                if eq_ignore_ascii_case(name, parameter_name) {
                    assert(names_parameter(segs[k as int], parameter_name@));
                    assert(names_some_parameter(segs, parameter_name@));
                    return Some(true);
                }
            },
        }
        k = k + 1;
    }
    Some(false)
}

/// A parameter can only be read from a header value that names it: whenever
/// `parameter` yields a value, `has_parameter_name` reports the name present.
pub proof fn law_parameter_implies_named(value: Seq<char>, name: Seq<char>)
    ensures
        parameter_seq(value, name) is Some ==> has_parameter_name_seq(value, name) == Some(true),
{
    if let Some(segs) = parameter_segments(value) {
        lemma_first_parameter_index(segs, 1, name);
        let k = first_parameter_index(segs, 1, name);
        if k < segs.len() {
            assert(names_parameter(segs[k], name));
        }
    }
}

/// Malformed quoting is reported alike by both lookups: `has_parameter_name`
/// is `None` exactly when the segments cannot be split, and `parameter` is
/// then `None` too.
pub proof fn law_malformed_quoting(value: Seq<char>, name: Seq<char>)
    ensures
        has_parameter_name_seq(value, name) is None <==> parameter_segments(value) is None,
        parameter_segments(value) is None ==> parameter_seq(value, name) is None,
{
}

/// Text with no backslash and no line break unescapes to itself.
proof fn lemma_unescape_plain(s: Seq<char>, i: int)
    requires
        0 <= i <= s.len(),
        forall|j: int| 0 <= j < s.len() ==> s[j] != '\\' && !is_line_break(#[trigger] s[j]),
    ensures
        unescape_from(s, i) == Some(s.skip(i)),
    decreases s.len() - i,
{
    if i < s.len() {
        lemma_unescape_plain(s, i + 1);
        assert(seq![s[i]] + s.skip(i + 1) =~= s.skip(i));
    } else {
        assert(s.skip(i) =~= seq![]);
    }
}

/// The first parameter segment naming `name` decides the lookup: when its
/// trimmed raw value is `content` between double quotes, and `content` holds
/// no backslash and no line break, the parameter's value is `content`,
/// without the quotes; when the trimmed raw value opens a quote that it does
/// not close, the lookup fails.
pub proof fn law_quoted_parameter_value(
    value: Seq<char>,
    name: Seq<char>,
    segs: Seq<Seq<char>>,
    k: int,
    content: Seq<char>,
)
    requires
        parameter_segments(value) == Some(segs),
        1 <= k < segs.len(),
        names_parameter(segs[k], name),
        forall|j: int| 1 <= j < k ==> !#[trigger] names_parameter(segs[j], name),
    ensures
        trim_seq(raw_parameter_value(segs[k])) == seq!['"'] + content + seq!['"'] && (forall|j: int|
            0 <= j < content.len() ==> content[j] != '\\' && !is_line_break(#[trigger] content[j]))
            ==> parameter_seq(value, name) == Some(content),
        ({
            let v = trim_seq(raw_parameter_value(segs[k]));
            v.len() > 0 && v[0] == '"' && (v.len() < 2 || v.last() != '"')
        }) ==> parameter_seq(value, name) is None,
{
    lemma_first_parameter_index(segs, 1, name);
    let f = first_parameter_index(segs, 1, name);
    if f < k {
        assert(names_parameter(segs[f], name));
    }
    assert(f == k);
    let v = trim_seq(raw_parameter_value(segs[k]));
    if v == seq!['"'] + content + seq!['"'] && (forall|j: int|
        0 <= j < content.len() ==> content[j] != '\\' && !is_line_break(#[trigger] content[j])) {
        assert(v.len() == content.len() + 2);
        assert(v[0] == '"');
        assert(v.last() == '"');
        assert(v.subrange(1, v.len() - 1) =~= content);
        lemma_unescape_plain(content, 0);
        assert(content.skip(0) =~= content);
    }
}

} // verus!
