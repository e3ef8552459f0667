//! Finding the HTTP URLs embedded in a diagnostic message. Positions count
//! characters.
use vstd::prelude::*;

use crate::text::{char_is_white_space, is_white_space, str_starts_with_ignore_ascii_case, starts_with_ignore_ascii_case};

verus! {

/// An HTTP URL (`http://` or `https://`, any ASCII case) starts at `i`.
pub open spec fn url_prefix_at(s: Seq<char>, i: int) -> bool {
    0 <= i <= s.len() && (starts_with_ignore_ascii_case(s.skip(i), "http://"@)
        || starts_with_ignore_ascii_case(s.skip(i), "https://"@))
}

/// The first URL start at or after `from`.
pub open spec fn first_url_start(s: Seq<char>, from: int) -> Option<int>
    decreases s.len() - from,
{
    if from < 0 || from >= s.len() {
        None
    } else if url_prefix_at(s, from) {
        Some(from)
    } else {
        first_url_start(s, from + 1)
    }
}

/// The first white-space position in `from..to`, or `to`.
pub open spec fn first_space(s: Seq<char>, from: int, to: int) -> int
    decreases to - from,
{
    if from >= to {
        to
    } else if is_white_space(s[from]) {
        from
    } else {
        first_space(s, from + 1, to)
    }
}

/// Trailing punctuation that does not belong to a URL.
pub open spec fn is_url_trailer(c: char) -> bool {
    c == '.' || c == ',' || c == ';' || c == ':' || c == '!' || c == '?' || c == ')' || c == ']'
        || c == '}'
}

/// Where the URL starting at `start` ends within `..end`: trailing
/// punctuation after the first character is left out.
pub open spec fn trimmed_end(s: Seq<char>, start: int, end: int) -> int
    decreases end,
{
    if end <= 0 || end - 1 <= start || !is_url_trailer(s[end - 1]) {
        end
    } else {
        trimmed_end(s, start, end - 1)
    }
}

/// Where the URL candidate starting at `start` may extend to: the next URL
/// start, or the first white space before it, or the end of the text.
pub open spec fn candidate_limit(s: Seq<char>, start: int) -> int {
    let next = match first_url_start(s, start + 1) {
        Some(n) => n,
        None => s.len() as int,
    };
    first_space(s, start, next)
}

/// The spans of the URLs found from `cursor` on, in order.
pub open spec fn url_spans_from(s: Seq<char>, cursor: int) -> Seq<(int, int)>
    decreases s.len() - cursor,
{
    match first_url_start(s, cursor) {
        None => seq![],
        Some(start) => {
            let end = trimmed_end(s, start, candidate_limit(s, start));
            if cursor <= start < end <= s.len() {
                seq![(start, end)] + url_spans_from(s, end)
            } else {
                seq![]
            }
        },
    }
}

proof fn lemma_first_url_start(s: Seq<char>, from: int)
    ensures
        match first_url_start(s, from) {
            Some(i) => from <= i < s.len() && url_prefix_at(s, i),
            None => true,
        },
    decreases s.len() - from,
{
    if 0 <= from < s.len() && !url_prefix_at(s, from) {
        lemma_first_url_start(s, from + 1);
    }
}

proof fn lemma_first_space(s: Seq<char>, from: int, to: int)
    requires
        from <= to,
    ensures
        from <= first_space(s, from, to) <= to,
    decreases to - from,
{
    if from < to && !is_white_space(s[from]) {
        lemma_first_space(s, from + 1, to);
    }
}

proof fn lemma_trimmed_end(s: Seq<char>, start: int, end: int)
    requires
        start < end,
    ensures
        start < trimmed_end(s, start, end) <= end,
    decreases end,
{
    if !(end <= 0 || end - 1 <= start || !is_url_trailer(s[end - 1])) {
        lemma_trimmed_end(s, start, end - 1);
    }
}

proof fn lemma_url_start_char(s: Seq<char>, i: int)
    requires
        url_prefix_at(s, i),
    ensures
        i < s.len(),
        !is_white_space(s[i]),
{
    reveal_strlit("http://");
    reveal_strlit("https://");
    let t = s.skip(i);
    if starts_with_ignore_ascii_case(t, "http://"@) {
        assert(t.take(7)[0] == s[i]);
        assert(crate::text::ascii_fold(t.take(7)[0]) == crate::text::ascii_fold("http://"@[0]));
    } else {
        assert(t.take(8)[0] == s[i]);
        assert(crate::text::ascii_fold(t.take(8)[0]) == crate::text::ascii_fold("https://"@[0]));
    }
}

fn url_prefix_at_exec(text: &str, i: usize) -> (r: bool)
    requires
        i <= text@.len(),
    ensures
        r == url_prefix_at(text@, i as int),
{
    let rest = text.substring_char(i, text.unicode_len());
    assert(rest@ =~= text@.skip(i as int));
    str_starts_with_ignore_ascii_case(rest, "http://") || str_starts_with_ignore_ascii_case(rest, "https://")
}

/// The first URL start at or after `from`.
pub fn find_url_start_from(text: &str, from: usize) -> (r: Option<usize>)
    ensures
        match r {
            Some(i) => first_url_start(text@, from as int) == Some(i as int),
            None => first_url_start(text@, from as int) is None,
        },
{
    let n = text.unicode_len();
    let mut i = from;
    while i < n
        invariant
            n == text@.len(),
            from <= i,
            first_url_start(text@, from as int) == first_url_start(text@, i as int),
        decreases n - i,
    {
        if url_prefix_at_exec(text, i) {
            return Some(i);
        }
        i = i + 1;
    }
    None
}

/// The first URL start in `text`.
pub fn find_url_start(text: &str) -> (r: Option<usize>)
    ensures
        match r {
            Some(i) => first_url_start(text@, 0) == Some(i as int),
            None => first_url_start(text@, 0) is None,
        },
{
    find_url_start_from(text, 0)
}

/// Where the URL starting at `start` ends within `text[..end]`, trailing
/// punctuation after its first character left out.
pub fn url_candidate_end(text: &str, start: usize, end: usize) -> (r: usize)
    requires
        end <= text@.len(),
    ensures
        r == trimmed_end(text@, start as int, end as int),
{
    let mut e = end;
    while e > 0 && e - 1 > start
        invariant
            e <= end <= text@.len(),
            trimmed_end(text@, start as int, end as int) == trimmed_end(text@, start as int, e as int),
        decreases e,
    {
        let c = text.get_char(e - 1);
        if !(c == '.' || c == ',' || c == ';' || c == ':' || c == '!' || c == '?' || c == ')' || c == ']'
            || c == '}') {
            return e;
        }
        e = e - 1;
    }
    e
}

fn first_space_exec(text: &str, from: usize, to: usize) -> (r: usize)
    requires
        from <= to <= text@.len(),
    ensures
        r == first_space(text@, from as int, to as int),
{
    let mut i = from;
    while i < to
        invariant
            from <= i <= to <= text@.len(),
            first_space(text@, from as int, to as int) == first_space(text@, i as int, to as int),
        decreases to - i,
    {
        if char_is_white_space(text.get_char(i)) {
            return i;
        }
        i = i + 1;
    }
    i
}

/// The character spans of the HTTP URLs in a diagnostic message, in order:
/// each starts at `http://` or `https://` (any ASCII case), ends before the
/// next such start or white space, and leaves out trailing punctuation.
pub fn url_spans(text: &str) -> (r: Vec<(usize, usize)>)
    ensures
        r@.map_values(|p: (usize, usize)| (p.0 as int, p.1 as int)) == url_spans_from(text@, 0),
{
    let n = text.unicode_len();
    let mut out: Vec<(usize, usize)> = Vec::new();
    let mut cursor: usize = 0;
    let ghost s = text@;
    while cursor <= n
        invariant
            n == s.len(),
            s == text@,
            cursor <= n + 1,
            out@.map_values(|p: (usize, usize)| (p.0 as int, p.1 as int)) + url_spans_from(s, cursor as int)
                == url_spans_from(s, 0),
        decreases n + 1 - cursor,
    {
        let start = match find_url_start_from(text, cursor) {
            Some(st) => st,
            None => {
                assert(url_spans_from(s, cursor as int) == Seq::<(int, int)>::empty());
                assert(out@.map_values(|p: (usize, usize)| (p.0 as int, p.1 as int)) + url_spans_from(s, cursor as int)
                    =~= out@.map_values(|p: (usize, usize)| (p.0 as int, p.1 as int)));
                return out;
            },
        };
        proof {
            lemma_first_url_start(s, cursor as int);
        }
        let next = match find_url_start_from(text, start + 1) {
            Some(nx) => nx,
            None => n,
        };
        proof {
            lemma_first_url_start(s, start + 1);
        }
        let limit = first_space_exec(text, start, next);
        proof {
            lemma_first_space(s, start as int, next as int);
            lemma_url_start_char(s, start as int);
            lemma_first_space(s, start + 1, next as int);
        }
        let end = url_candidate_end(text, start, limit);
        proof {
            if limit == start {
                assert(first_space(s, start as int, next as int) == start);
            }
            lemma_trimmed_end(s, start as int, limit as int);
        }
        let ghost old_out = out@;
        out.push((start, end));
        proof {
            assert(out@.map_values(|p: (usize, usize)| (p.0 as int, p.1 as int)) =~= old_out.map_values(
                |p: (usize, usize)| (p.0 as int, p.1 as int),
            ).push((start as int, end as int)));
            assert(url_spans_from(s, cursor as int) == seq![(start as int, end as int)] + url_spans_from(s, end as int));
            assert(out@.map_values(|p: (usize, usize)| (p.0 as int, p.1 as int)) + url_spans_from(s, end as int)
                =~= old_out.map_values(|p: (usize, usize)| (p.0 as int, p.1 as int)) + url_spans_from(s, cursor as int));
        }
        cursor = end;
    }
    proof {
        assert(url_spans_from(s, cursor as int) == Seq::<(int, int)>::empty());
        assert(out@.map_values(|p: (usize, usize)| (p.0 as int, p.1 as int)) + url_spans_from(s, cursor as int)
            =~= out@.map_values(|p: (usize, usize)| (p.0 as int, p.1 as int)));
    }
    out
}

/// The URL spans found from `cursor` on are non-empty, lie within the text
/// after `cursor`, each begins at an `http://` or `https://` prefix, and
/// follow one another without overlap.
pub proof fn law_url_spans_ordered(s: Seq<char>, cursor: int)
    ensures
        ({
            let sp = url_spans_from(s, cursor);
            &&& forall|i: int|
                0 <= i < sp.len() ==> cursor <= (#[trigger] sp[i]).0 < sp[i].1 <= s.len() && url_prefix_at(
                    s,
                    sp[i].0,
                )
            &&& forall|i: int| 0 <= i < sp.len() - 1 ==> (#[trigger] sp[i]).1 <= sp[i + 1].0
        }),
    decreases s.len() - cursor,
{
    match first_url_start(s, cursor) {
        None => {},
        Some(start) => {
            lemma_first_url_start(s, cursor);
            let end = trimmed_end(s, start, candidate_limit(s, start));
            if cursor <= start < end <= s.len() {
                law_url_spans_ordered(s, end);
                let rest = url_spans_from(s, end);
                let sp = url_spans_from(s, cursor);
                assert(sp == seq![(start, end)] + rest);
                assert forall|i: int| 0 <= i < sp.len() implies cursor <= (#[trigger] sp[i]).0
                    < sp[i].1 <= s.len() && url_prefix_at(s, sp[i].0) by {
                    if i > 0 {
                        assert(sp[i] == rest[i - 1]);
                    }
                }
                assert forall|i: int| 0 <= i < sp.len() - 1 implies (#[trigger] sp[i]).1 <= sp[i
                    + 1].0 by {
                    assert(sp[i + 1] == rest[i]);
                    if i > 0 {
                        assert(sp[i] == rest[i - 1]);
                    }
                }
            }
        },
    }
}

} // verus!
