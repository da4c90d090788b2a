//! What is sent back: a status, two headers and a body.

use actix_web::web::Bytes;
use vstd::prelude::*;

use crate::buffer::{bytes_as_slice, bytes_contents};

verus! {

/// The media types that bodies are declared as.
#[derive(Clone, Copy, Debug, PartialEq, Eq, Structural)]
pub enum ContentType {
    Html,
    Plain,
    Json,
}

impl ContentType {
    /// The value of the content-type header for this media type.
    pub open spec fn text(self) -> Seq<char> {
        match self {
            ContentType::Html => "text/html; charset=utf-8"@,
            ContentType::Plain => "text/plain"@,
            ContentType::Json => "application/json"@,
        }
    }

    /// The value of the content-type header for this media type.
    pub fn as_str(&self) -> (s: &'static str)
        ensures
            s@ == self.text(),
    {
        match self {
            ContentType::Html => "text/html; charset=utf-8",
            ContentType::Plain => "text/plain",
            ContentType::Json => "application/json",
        }
    }
}

/// The status that every response carries.
pub const STATUS_OK: u16 = 200;

/// The value of the server header that every response carries.
pub const SERVER_ID: &'static str = "A";

/// A complete response.
#[derive(Debug)]
pub struct Response {
    pub status: u16,
    pub content_type: ContentType,
    pub server: &'static str,
    pub body: Bytes,
}

/// A response as plain values.
pub struct ResponseView {
    pub status: u16,
    pub content_type: ContentType,
    pub server: Seq<char>,
    pub body: Seq<u8>,
}

impl View for Response {
    type V = ResponseView;

    open spec fn view(&self) -> ResponseView {
        ResponseView {
            status: self.status,
            content_type: self.content_type,
            server: self.server@,
            body: bytes_contents(self.body),
        }
    }
}

/// The successful response with the given media type and body.
pub open spec fn ok_response(content_type: ContentType, body: Seq<u8>) -> ResponseView {
    ResponseView { status: STATUS_OK, content_type, server: SERVER_ID@, body }
}

impl Response {
    /// A successful response: status 200, the given media type, the server
    /// header, and the body.
    pub fn ok(content_type: ContentType, body: Bytes) -> (r: Response)
        ensures
            r@ == ok_response(content_type, bytes_contents(body)),
    {
        Response { status: STATUS_OK, content_type, server: SERVER_ID, body }
    }

    /// The bytes of the body.
    pub fn body_bytes(&self) -> (b: &[u8])
        ensures
            b@ == self@.body,
    {
        bytes_as_slice(&self.body)
    }
}

} // verus!
