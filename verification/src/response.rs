//! Responses: a status and a body.

use bytes::Bytes;
use vstd::prelude::*;
use vstd::utf8::encode_utf8;

use crate::text::{after_last, join, last_part};

verus! {

pub const OK: u16 = 200;

pub const FORBIDDEN: u16 = 403;

pub const NOT_FOUND: u16 = 404;

pub const INTERNAL_SERVER_ERROR: u16 = 500;

/// The shared byte buffer that a response's body is kept in.
#[verifier::external_type_specification]
#[verifier::external_body]
pub struct ExBytes(Bytes);

/// The bytes that a `Bytes` holds, in order.
pub uninterp spec fn bytes_content(bytes: Bytes) -> Seq<u8>;

/// `Bytes::from(&'static str)`: the buffer holds the text's UTF-8 bytes.
#[verifier::external_body]
pub(crate) fn bytes_from_static(text: &'static str) -> (bytes: Bytes)
    ensures
        bytes_content(bytes) == encode_utf8(text@),
{
    Bytes::from(text)
}

/// `Bytes::from(String)`: the buffer holds the text's UTF-8 bytes.
#[verifier::external_body]
pub(crate) fn bytes_from_string(text: String) -> (bytes: Bytes)
    ensures
        bytes_content(bytes) == encode_utf8(text@),
{
    Bytes::from(text)
}

/// `Bytes::from(Vec<u8>)`: the buffer holds the vector's bytes.
#[verifier::external_body]
pub(crate) fn bytes_from_vec(content: Vec<u8>) -> (bytes: Bytes)
    ensures
        bytes_content(bytes) == content@,
{
    Bytes::from(content)
}

/// What is sent back for a request.
#[derive(Debug)]
pub struct Response {
    pub status: u16,
    pub body: Bytes,
}

/// A response as its status and the bytes of its body.
pub struct ResponseView {
    pub status: u16,
    pub body: Seq<u8>,
}

impl View for Response {
    type V = ResponseView;

    open spec fn view(&self) -> ResponseView {
        ResponseView { status: self.status, body: bytes_content(self.body) }
    }
}

/// The response that carries `message` as its body, in UTF-8.
pub open spec fn message_response(status: u16, message: Seq<char>) -> ResponseView {
    ResponseView { status, body: encode_utf8(message) }
}

/// `hyper::Response::new`, taken apart with `into_parts`: the given body, and the status
/// that a response has by default.
#[verifier::external_body]
pub(crate) fn new_response(body: Bytes) -> (response: Response)
    ensures
        response.status == OK,
        response.body == body,
{
    let (parts, body) = hyper::Response::new(body).into_parts();
    Response { status: parts.status.as_u16(), body }
}

/// `hyper::Response::builder` with a status and a body, taken apart with `into_parts`. The
/// builder takes the statuses from 100 to 999 and keeps status and body as they are; of any
/// other status it says that it is invalid.
#[verifier::external_body]
pub(crate) fn build_response(status: u16, body: Bytes) -> (built: Result<Response, String>)
    ensures
        built matches Ok(response) ==> 100 <= status <= 999 && response.status == status
            && response.body == body,
        built matches Err(reason) ==> !(100 <= status <= 999) && reason@ == "invalid status code"@,
{
    match hyper::Response::builder().status(status).body(body) {
        Ok(response) => {
            let (parts, body) = response.into_parts();
            Ok(Response { status: parts.status.as_u16(), body })
        },
        Err(error) => Err(error.to_string()),
    }
}

/// A simple response with a status and a message.
pub fn gen_response(status_code: u16, message: Bytes) -> (response: Response)
    ensures
        response.status == status_code,
        response.body == message,
{
    let response = new_response(message);
    Response { status: status_code, body: response.body }
}

/// What became of reading a whole file.
#[derive(Debug)]
pub enum FileOutcome {
    /// The file could not be opened.
    NotOpened,
    /// The file was opened and could not be read, for the reason given.
    NotRead(String),
    /// All that the file holds.
    Contents(Vec<u8>),
}

/// The answer where the file at `filepath` cannot be opened: it names the last part of the
/// path and nothing else of it.
pub open spec fn missing_file_response(filepath: Seq<char>) -> ResponseView {
    message_response(NOT_FOUND, last_part(filepath, '/') + " could not be found"@)
}

/// Hands the opened file on, and answers that there is no such file where it was not
/// opened.
pub fn file_open<F>(filepath: &str, opened: Option<F>) -> (file: Result<F, Response>)
    ensures
        match opened {
            Some(handle) => file == Ok::<F, Response>(handle),
            None => file matches Err(response) && response@ == missing_file_response(filepath@),
        },
{
    match opened {
        Some(handle) => Ok(handle),
        None => {
            let filename = after_last(filepath, '/');
            let message = join(filename.as_str(), " could not be found");
            Err(gen_response(NOT_FOUND, bytes_from_string(message)))
        },
    }
}

} // verus!
