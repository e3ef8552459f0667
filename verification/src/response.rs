//! A buffered HTTP response and decoding its body as text.
use vstd::prelude::*;

use crate::error::http_error::HttpError;
use crate::error::http_error_kind::HttpErrorKind;
use crate::text::{push_str, utf8_error_text, utf8_text};

verus! {

/// A response whose body has been read whole.
#[derive(Debug, Clone)]
pub struct HttpResponse {
    /// Status code.
    pub status: u16,
    /// Response headers as name/value pairs.
    pub headers: Vec<(String, String)>,
    /// Body bytes.
    pub body: Vec<u8>,
    /// Final URL of the response.
    pub url: String,
}

impl HttpResponse {
    /// Bundles a response's parts.
    pub fn new(status: u16, headers: Vec<(String, String)>, body: Vec<u8>, url: String) -> (r: Self)
        ensures
            r.status == status && r.headers@ == headers@ && r.body@ == body@ && r.url@ == url@,
    {
        HttpResponse { status, headers, body, url }
    }

    /// Whether the status is a success (2xx).
    pub fn is_success(&self) -> (r: bool)
        ensures
            r == (200 <= self.status <= 299),
    {
        200 <= self.status && self.status <= 299
    }

    /// The body as UTF-8 text; a body that is not UTF-8 is a decode error
    /// naming the status and URL.
    pub fn text(&self) -> (r: Result<String, HttpError>)
        ensures
            match r {
                Ok(s) => vstd::utf8::valid_utf8(self.body@) && s@ == vstd::utf8::decode_utf8(
                    self.body@,
                ),
                Err(e) => !vstd::utf8::valid_utf8(self.body@) && e.kind == HttpErrorKind::Decode
                    && e.message@ == "Failed to decode response body as UTF-8: "@ + utf8_error_text(
                    self.body@,
                ) && e.status == Some(self.status) && (e.url matches Some(u) && u@ == self.url@)
                    && e.method is None && e.retry_after is None,
            },
    {
        match utf8_text(self.body.as_slice()) {
            Ok(text) => Ok(text.to_owned()),
            Err(description) => {
                let mut message = "Failed to decode response body as UTF-8: ".to_owned();
                push_str(&mut message, description.as_str());
                Err(
                    HttpError::with_message(HttpErrorKind::Decode, message).with_status(
                        self.status,
                    ).with_url(self.url.as_str()),
                )
            },
        }
    }
}

} // verus!
