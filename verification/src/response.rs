//! Replies, as plain values.

use vstd::prelude::*;
use vstd::string::*;
use crate::media::{choose_media_type, media_type_or_default};
use crate::text::utf8_bytes;

verus! {

/// Status of a successful reply.
pub const STATUS_OK: u16 = 200;

/// Status of the not-found page.
pub const STATUS_NOT_FOUND: u16 = 404;

/// Status of the reply to a method that may not have what it asked for.
pub const STATUS_METHOD_NOT_ALLOWED: u16 = 405;

/// Status of the reply to a request that ran out of time.
pub const STATUS_SERVICE_UNAVAILABLE: u16 = 503;

/// A complete reply: status, media type and body.
pub struct Response {
    pub status: u16,
    pub content_type: Option<String>,
    pub body: Vec<u8>,
}

/// What a [`Response`] is, mathematically.
pub struct ResponseView {
    pub status: int,
    pub content_type: Option<Seq<char>>,
    pub body: Seq<u8>,
}

impl View for Response {
    type V = ResponseView;

    open spec fn view(&self) -> ResponseView {
        ResponseView {
            status: self.status as int,
            content_type: match self.content_type {
                Some(s) => Some(s@),
                None => None,
            },
            body: self.body@,
        }
    }
}

/// The liveness reply: status 200, plain text, a fixed greeting.
pub open spec fn diagnostic_view() -> ResponseView {
    ResponseView {
        status: 200,
        content_type: Some("text/plain; charset=utf-8"@),
        body: utf8_bytes("hello from axum"@),
    }
}

/// The not-found page: status 404 and a fixed HTML body.
pub open spec fn not_found_view() -> ResponseView {
    ResponseView {
        status: 404,
        content_type: Some("text/html; charset=utf-8"@),
        body: utf8_bytes("<h1>404 Not Found</h1>"@),
    }
}

/// The reply to a method other than GET and HEAD that asked for something
/// the server has: status 405, no body.
pub open spec fn method_not_allowed_view() -> ResponseView {
    ResponseView { status: 405, content_type: None, body: Seq::empty() }
}

/// The reply to a request that was not handled in time: status 503, no
/// body.
pub open spec fn timed_out_view() -> ResponseView {
    ResponseView { status: 503, content_type: None, body: Seq::empty() }
}

/// The reply that carries a file: status 200, the guessed media type or the
/// default, and the file's bytes unchanged.
pub open spec fn file_view(guess: Option<Seq<char>>, contents: Seq<u8>) -> ResponseView {
    ResponseView {
        status: 200,
        content_type: Some(media_type_or_default(guess)),
        body: contents,
    }
}

/// The liveness reply. It depends on nothing.
pub fn diagnostic() -> (r: Response)
    ensures
        r@ == diagnostic_view(),
{
    Response {
        status: STATUS_OK,
        content_type: Some("text/plain; charset=utf-8".to_owned()),
        body: "hello from axum".as_bytes_vec(),
    }
}

/// The not-found page. It depends on nothing.
pub fn not_found() -> (r: Response)
    ensures
        r@ == not_found_view(),
{
    Response {
        status: STATUS_NOT_FOUND,
        content_type: Some("text/html; charset=utf-8".to_owned()),
        body: "<h1>404 Not Found</h1>".as_bytes_vec(),
    }
}

/// The reply to a method other than GET and HEAD that asked for something
/// the server has.
pub fn method_not_allowed() -> (r: Response)
    ensures
        r@ == method_not_allowed_view(),
{
    Response { status: STATUS_METHOD_NOT_ALLOWED, content_type: None, body: Vec::new() }
}

/// The reply to a request that was not handled in time.
pub fn timed_out() -> (r: Response)
    ensures
        r@ == timed_out_view(),
{
    Response { status: STATUS_SERVICE_UNAVAILABLE, content_type: None, body: Vec::new() }
}

/// The reply that carries a file's bytes, with the media type that the
/// guess gives.
pub fn file_response(guess: Option<&str>, contents: Vec<u8>) -> (r: Response)
    ensures
        r@ == file_view(
            match guess {
                Some(m) => Some(m@),
                None => None,
            },
            contents@,
        ),
{
    Response { status: STATUS_OK, content_type: Some(choose_media_type(guess)), body: contents }
}

} // verus!
