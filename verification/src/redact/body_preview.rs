//! The part of a body that body logging may show.
use vstd::prelude::*;

verus! {

/// A body together with the number of leading bytes that may be shown;
/// the limit is at least one byte.
#[derive(Debug, Clone, Copy)]
pub struct BodyPreview<'a> {
    bytes: &'a [u8],
    limit: usize,
}

/// The shown-prefix limit a requested limit becomes: zero is raised to one.
pub open spec fn preview_limit(limit: usize) -> usize {
    if limit == 0 {
        1
    } else {
        limit
    }
}

impl<'a> BodyPreview<'a> {
    /// The body.
    pub closed spec fn spec_bytes(&self) -> Seq<u8> {
        self.bytes@
    }

    /// The limit of the shown prefix.
    pub closed spec fn spec_limit(&self) -> usize {
        self.limit
    }

    /// Creates a preview of `bytes` showing at most `limit` bytes, raised to
    /// one byte when zero.
    pub fn new(bytes: &'a [u8], limit: usize) -> (r: Self)
        ensures
            r.spec_bytes() == bytes@,
            r.spec_limit() == preview_limit(limit),
    {
        BodyPreview { bytes, limit: if limit == 0 { 1 } else { limit } }
    }

    /// The whole body.
    pub fn bytes(&self) -> (r: &'a [u8])
        ensures
            r@ == self.spec_bytes(),
    {
        self.bytes
    }

    /// The limit of the shown prefix.
    pub fn limit(&self) -> (r: usize)
        ensures
            r == self.spec_limit(),
    {
        self.limit
    }

    /// Whether the body is longer than the shown prefix.
    pub fn is_truncated(&self) -> (r: bool)
        ensures
            r == (self.spec_bytes().len() > self.spec_limit()),
    {
        self.bytes.len() > self.limit
    }

    /// The shown prefix: the first `limit` bytes, or the whole body when it
    /// is no longer.
    pub fn shown(&self) -> (r: &'a [u8])
        ensures
            r@ == if self.spec_bytes().len() > self.spec_limit() {
                self.spec_bytes().take(self.spec_limit() as int)
            } else {
                self.spec_bytes()
            },
    {
        if self.bytes.len() > self.limit {
            vstd::slice::slice_subrange(self.bytes, 0, self.limit)
        } else {
            self.bytes
        }
    }
}

} // verus!
