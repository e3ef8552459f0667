//! Masking of sensitive header values.
use vstd::prelude::*;

use crate::constants::{
    mask_placeholder, mask_placeholder_seq, SENSITIVE_HEADER_MASK_EDGE_CHARS,
    SENSITIVE_HEADER_MASK_SHORT_LEN,
};
use crate::options::sensitive_headers::SensitiveHeaders;
use crate::text::unicode_lowercase;

verus! {

/// The log-safe form of `value` for header `name`: unchanged when the name is
/// not sensitive; otherwise `****` for values of at most four characters
/// (the empty value included), else the first two characters, `****` and the
/// last two characters.
pub open spec fn masked_value(name: Seq<char>, value: Seq<char>, sensitive: Set<Seq<char>>) -> Seq<
    char,
> {
    if !sensitive.contains(unicode_lowercase(name)) {
        value
    } else if value.len() <= SENSITIVE_HEADER_MASK_SHORT_LEN {
        mask_placeholder_seq()
    } else {
        value.take(2) + mask_placeholder_seq() + value.skip(value.len() - 2)
    }
}

/// Returns a log-safe copy of `value` when `name` is listed in
/// `sensitive_headers`.
pub fn mask_header_value(name: &str, value: &str, sensitive_headers: &SensitiveHeaders) -> (r:
    String)
    ensures
        r@ == masked_value(name@, value@, sensitive_headers@),
{
    let n = value.unicode_len();
    if !sensitive_headers.contains(name) {
        return value.to_owned();
    }
    if n <= SENSITIVE_HEADER_MASK_SHORT_LEN {
        return mask_placeholder().to_owned();
    }
    let edge = SENSITIVE_HEADER_MASK_EDGE_CHARS;
    let mut result = value.substring_char(0, edge).to_owned();
    result.append(mask_placeholder());
    result.append(value.substring_char(n - edge, n));
    assert(result@ =~= value@.take(2) + mask_placeholder_seq() + value@.skip(n - 2));
    result
}

/// A masked sensitive value never shows more than four of the original
/// characters, and always shows the placeholder.
pub proof fn law_mask_hides_middle(name: Seq<char>, value: Seq<char>, sensitive: Set<Seq<char>>)
    requires
        sensitive.contains(unicode_lowercase(name)),
    ensures
        value.len() <= 4 ==> masked_value(name, value, sensitive) == mask_placeholder_seq(),
        value.len() > 4 ==> masked_value(name, value, sensitive).len() == 8,
        value.len() > 4 ==> masked_value(name, value, sensitive).subrange(2, 6)
            == mask_placeholder_seq(),
{
    if value.len() > 4 {
        let m = masked_value(name, value, sensitive);
        assert(m.subrange(2, 6) =~= mask_placeholder_seq());
    }
}

/// Values of headers outside the sensitive set pass through unchanged.
pub proof fn law_mask_non_sensitive_identity(
    name: Seq<char>,
    value: Seq<char>,
    sensitive: Set<Seq<char>>,
)
    requires
        !sensitive.contains(unicode_lowercase(name)),
    ensures
        masked_value(name, value, sensitive) == value,
{
}

} // verus!
