//! What was captured of a non-success response: its headers and (a prefix
//! of) its body.
use vstd::prelude::*;

use crate::header::{header_list_view, HeaderList};

verus! {

/// Headers and captured body of a non-success response. It has no `Debug`
/// form, so that formatting never shows the body.
#[derive(Clone)]
pub struct HttpStatusResponse {
    headers: Vec<(String, String)>,
    body: Vec<u8>,
    truncated: bool,
    content_length: Option<u64>,
}

impl HttpStatusResponse {
    /// The response headers.
    pub closed spec fn spec_headers(&self) -> HeaderList {
        header_list_view(self.headers@)
    }

    /// The captured body bytes.
    pub closed spec fn spec_body(&self) -> Seq<u8> {
        self.body@
    }

    /// Whether the capture stopped before the end of the body.
    pub closed spec fn spec_truncated(&self) -> bool {
        self.truncated
    }

    /// The declared body length, when the response declared one.
    pub closed spec fn spec_content_length(&self) -> Option<u64> {
        self.content_length
    }

    /// Captures a response's headers and body.
    pub fn new(headers: Vec<(String, String)>, body: Vec<u8>, truncated: bool, content_length: Option<u64>) -> (r:
        Self)
        ensures
            r.spec_headers() == header_list_view(headers@),
            r.spec_body() == body@,
            r.spec_truncated() == truncated,
            r.spec_content_length() == content_length,
    {
        HttpStatusResponse { headers, body, truncated, content_length }
    }

    /// The response headers.
    pub fn headers(&self) -> (r: &[(String, String)])
        ensures
            header_list_view(r@) == self.spec_headers(),
    {
        self.headers.as_slice()
    }

    /// The captured body bytes.
    pub fn body(&self) -> (r: &[u8])
        ensures
            r@ == self.spec_body(),
    {
        self.body.as_slice()
    }

    /// Whether the capture stopped before the end of the body.
    pub fn is_truncated(&self) -> (r: bool)
        ensures
            r == self.spec_truncated(),
    {
        self.truncated
    }

    /// The declared body length, when the response declared one.
    pub fn content_length(&self) -> (r: Option<u64>)
        ensures
            r == self.spec_content_length(),
    {
        self.content_length
    }
}

} // verus!
