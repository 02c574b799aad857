use vstd::prelude::*;
use vstd::utf8::{decode_utf8, valid_utf8};

use crate::error::EmailResult;

verus! {

/// The method of an HTTP request.
#[derive(Debug, Clone, Copy, PartialEq, Eq, Structural)]
pub enum Method {
    Get,
    Post,
    Put,
    Delete,
    Head,
}

/// One header line: a name and a value. There is no `Debug`: the value may
/// be a credential, which is not for logs.
#[derive(Clone, PartialEq, Eq)]
pub struct Header {
    pub name: String,
    pub value: String,
}

/// One HTTP request, as handed to the transport. There is no `Debug`, as
/// for its headers.
#[derive(Clone, PartialEq, Eq)]
pub struct HttpRequest {
    pub url: String,
    pub method: Method,
    pub headers: Vec<Header>,
    pub body: Option<Vec<u8>>,
}

/// What the transport brought back for one request. There is no `Debug`:
/// the full response is not for logs either.
#[derive(Clone, PartialEq, Eq)]
pub struct HttpResponse {
    pub status_code: u16,
    pub headers: Vec<Header>,
    pub body: Option<Vec<u8>>,
}

/// The transport: performs one HTTP request and returns the response, or
/// the error that kept it from getting one.
///
/// Nothing is promised of the outcome but that it is one of the transport's
/// answers to the request, a relation that each transport names for itself.
/// It lets a caller say which request it made and that its result comes
/// from the answer to that request; callers state what they do with every
/// possible answer.
pub trait Interface {
    /// Whether `outcome` is an answer of this transport to `request`. A
    /// transport that says nothing of itself keeps this: any outcome may
    /// be its answer.
    open spec fn answers(&self, request: HttpRequest, outcome: EmailResult<HttpResponse>) -> bool {
        true
    }

    fn http_request(&self, request: HttpRequest) -> (outcome: EmailResult<HttpResponse>)
        ensures
            self.answers(request, outcome),
    ;
}

/// Whether `c` may stand in a header value: any character from the space
/// on, except DEL, and the tab.
pub open spec fn is_header_char(c: char) -> bool {
    (c as u32 >= 32 && c as u32 != 127) || c as u32 == 9
}

/// Whether every character of `text` may stand in a header value.
pub open spec fn is_header_text(text: Seq<char>) -> bool {
    forall|i: int| 0 <= i < text.len() ==> is_header_char(#[trigger] text[i])
}

/// The message of the error that reports an invalid header value.
pub open spec fn invalid_header_message() -> Seq<char> {
    "failed to parse header value"@
}

/// Calls `http::HeaderValue::from_str` and keeps whether it accepted the
/// text. It accepts a text whose UTF-8 bytes are all at least 32 and not
/// 127, or 9; a character beyond ASCII encodes to bytes from 128 on, so this
/// is [`is_header_text`]. Its error displays as [`invalid_header_message`].
#[verifier::external_body]
fn check_header_value(text: &str) -> (checked: Result<(), String>)
    ensures
        checked is Ok <==> is_header_text(text@),
        checked matches Err(message) ==> message@ == invalid_header_message(),
{
    match http::HeaderValue::from_str(text) {
        Ok(_) => Ok(()),
        Err(error) => Err(error.to_string()),
    }
}

/// Calls `String::from_utf8`: the text that the bytes encode, where they
/// are valid UTF-8, and nothing where they are not.
#[verifier::external_body]
fn decode_text(bytes: Vec<u8>) -> (decoded: Option<String>)
    ensures
        decoded is Some <==> valid_utf8(bytes@),
        decoded matches Some(text) ==> text@ == decode_utf8(bytes@),
{
    String::from_utf8(bytes).ok()
}

/// The text that a body is read as: what its bytes encode, and the empty
/// text where they are not valid UTF-8.
pub open spec fn body_text(bytes: Seq<u8>) -> Seq<char> {
    if valid_utf8(bytes) {
        decode_utf8(bytes)
    } else {
        Seq::empty()
    }
}

impl Header {
    /// A header `name` with the value `value`, if the value may stand in a
    /// header; otherwise the message of the error.
    pub fn with_value(name: &str, value: String) -> (made: Result<Header, String>)
        ensures
            match made {
                Ok(header) => is_header_text(value@) && header.name@ == name@ && header.value@
                    == value@,
                Err(message) => !is_header_text(value@) && message@ == invalid_header_message(),
            },
    {
        match check_header_value(value.as_str()) {
            Ok(()) => Ok(Header { name: name.to_owned(), value }),
            Err(message) => Err(message),
        }
    }
}

impl HttpResponse {
    /// Reads a body as text. A body that is not valid UTF-8 reads as the
    /// empty text.
    pub fn read_text(body: Vec<u8>) -> (text: String)
        ensures
            text@ == body_text(body@),
    {
        match decode_text(body) {
            Some(text) => text,
            None => String::new(),
        }
    }
}

} // verus!
