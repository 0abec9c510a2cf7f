//! The unified error taxonomy: the opaque HTTP body, the infrastructure
//! error, and the per-request error.

use vstd::prelude::*;

verus! {

use vstd::string::StringExecFns;
use vstd::utf8::decode_utf8;
use vstd::utf8::valid_utf8;

use crate::endpoint::ConversionError;
use crate::render::byte_listing;
use crate::render::dec_digits;
use crate::render::push_decimal_u16;
use crate::render::render_byte_listing;

/// An opaque HTTP body: an ordered byte sequence, kept verbatim so that
/// diagnosing a failure never requires re-issuing the request.
#[derive(Clone, Debug)]
pub struct HttpBody(Vec<u8>);

impl View for HttpBody {
    type V = Seq<u8>;

    closed spec fn view(&self) -> Seq<u8> {
        self.0@
    }
}

/// How a body displays: as its decoded text when it is valid UTF-8, and as
/// a listing of its byte values otherwise.
pub open spec fn body_display(bs: Seq<u8>) -> Seq<char> {
    if valid_utf8(bs) {
        decode_utf8(bs)
    } else {
        byte_listing(bs)
    }
}

/// Relies on String::from_utf8: it succeeds exactly on valid UTF-8 input
/// and returns the characters that the bytes encode.
#[verifier::external_body]
fn utf8_string(bytes: &Vec<u8>) -> (r: Option<String>)
    ensures
        r is Some <==> valid_utf8(bytes@),
        r matches Some(s) ==> s@ == decode_utf8(bytes@),
{
    String::from_utf8(bytes.clone()).ok()
}

impl HttpBody {
    /// A body over the given bytes.
    pub fn new(bytes: Vec<u8>) -> (r: HttpBody)
        ensures
            r@ == bytes@,
    {
        HttpBody(bytes)
    }

    /// The raw bytes received.
    pub fn bytes(&self) -> (r: &Vec<u8>)
        ensures
            r@ == self@,
    {
        &self.0
    }

    /// Renders the body: its text when it decodes, a byte listing otherwise.
    pub fn render(&self) -> (r: String)
        ensures
            r@ == body_display(self@),
    {
        match utf8_string(&self.0) {
            Some(s) => s,
            None => render_byte_listing(&self.0),
        }
    }
}

/// What the status line of a status code reads; determined by the code
/// alone.
pub uninterp spec fn status_line_of(code: u16) -> Seq<char>;

/// Relies on http::StatusCode: from_u16 accepts exactly the codes in
/// 100..1000, and the Display form of a code is fixed: the decimal code, a
/// space, and its canonical reason.
#[verifier::external_body]
fn status_line(code: u16) -> (r: String)
    requires
        100 <= code < 1000,
    ensures
        r@ == status_line_of(code),
{
    match http::StatusCode::from_u16(code) {
        Ok(status) => format!("{status}"),
        Err(_) => String::new(),
    }
}

/// How a status code displays in messages: its status line when it is a
/// legal HTTP code, its bare decimal value otherwise.
pub open spec fn status_display(code: u16) -> Seq<char> {
    if 100 <= code && code < 1000 {
        status_line_of(code)
    } else {
        dec_digits(code as nat)
    }
}

fn push_status(s: &mut String, code: u16)
    ensures
        final(s)@ == old(s)@ + status_display(code),
{
    if code >= 100 && code < 1000 {
        let line = status_line(code);
        s.append(line.as_str());
    } else {
        push_decimal_u16(s, code);
    }
}

/// The infrastructure-level error: every failure outside a typed endpoint's
/// own error set, such as connecting, or an unexpected status code.
#[derive(Clone, Debug)]
pub enum Error {
    /// An HTTP-level error; the payload describes the failure.
    Http(String),
    /// An HTTP status code that either represents a failure or is not
    /// supported, together with the raw bytes received.
    HttpStatus(u16, HttpBody),
    /// A JSON conversion error; the payload describes the failure.
    Json(String),
    /// An error directly originating in this crate.
    Str(String),
    /// A URL parsing error; the payload describes the failure.
    Url(String),
    /// A websocket error; the payload describes the failure.
    WebSocket(String),
}

impl Error {
    /// The human-readable message of this error.
    pub open spec fn message_spec(&self) -> Seq<char> {
        match self {
            Error::Http(_) => "encountered an HTTP related error"@,
            Error::HttpStatus(code, body) => "encountered an unexpected HTTP status: "@
                + status_display(*code) + ": "@ + body_display(body@),
            Error::Json(_) => "a JSON conversion failed"@,
            Error::Str(s) => s@,
            Error::Url(_) => "failed to parse the URL"@,
            Error::WebSocket(_) => "encountered a websocket related error"@,
        }
    }

    /// Renders the human-readable message of this error.
    pub fn render(&self) -> (r: String)
        ensures
            r@ == self.message_spec(),
    {
        match self {
            Error::Http(_) => "encountered an HTTP related error".to_owned(),
            Error::HttpStatus(code, body) => {
                let mut s = "encountered an unexpected HTTP status: ".to_owned();
                push_status(&mut s, *code);
                s.append(": ");
                let b = body.render();
                s.append(b.as_str());
                proof {
                    assert(s@ =~= self.message_spec());
                }
                s
            },
            Error::Json(_) => "a JSON conversion failed".to_owned(),
            Error::Str(s) => s.clone(),
            Error::Url(_) => "failed to parse the URL".to_owned(),
            Error::WebSocket(_) => "encountered a websocket related error".to_owned(),
        }
    }
}

/// An error encountered while issuing a typed request: exactly one variant
/// is populated per failed call.
#[derive(Clone, Debug)]
pub enum RequestError<D> {
    /// The endpoint reported an error: the status code mapped to one of the
    /// endpoint's named domain errors.
    Endpoint(D),
    /// Building the request body or decoding a success body failed, despite
    /// a successful exchange; kept distinct from domain errors.
    Conversion(ConversionError),
    /// A status code in neither of the endpoint's tables, with the raw
    /// bytes received.
    HttpStatus(u16, HttpBody),
    /// An error reported by the HTTP client while exchanging the request.
    Hyper(String),
    /// An error reported by the HTTP connection pool.
    HyperUtil(String),
    /// An error reported while reading data.
    Io(String),
}

impl<D> RequestError<D> {
    /// The human-readable message of this error.
    pub open spec fn message_spec(&self) -> Seq<char> {
        match self {
            RequestError::Endpoint(_) => "the endpoint reported an error"@,
            RequestError::Conversion(e) => e.message_spec(),
            RequestError::HttpStatus(code, body) => "encountered an unexpected HTTP status: "@
                + status_display(*code) + ": "@ + body_display(body@),
            RequestError::Hyper(_) => "the hyper crate reported an error"@,
            RequestError::HyperUtil(_) => "the hyper-util crate reported an error"@,
            RequestError::Io(_) => "failed to read data"@,
        }
    }

    /// Renders the human-readable message of this error.
    pub fn render(&self) -> (r: String)
        ensures
            r@ == self.message_spec(),
    {
        match self {
            RequestError::Endpoint(_) => "the endpoint reported an error".to_owned(),
            RequestError::Conversion(e) => e.render(),
            RequestError::HttpStatus(code, body) => {
                let mut s = "encountered an unexpected HTTP status: ".to_owned();
                push_status(&mut s, *code);
                s.append(": ");
                let b = body.render();
                s.append(b.as_str());
                proof {
                    assert(s@ =~= self.message_spec());
                }
                s
            },
            RequestError::Hyper(_) => "the hyper crate reported an error".to_owned(),
            RequestError::HyperUtil(_) => "the hyper-util crate reported an error".to_owned(),
            RequestError::Io(_) => "failed to read data".to_owned(),
        }
    }
}

} // verus!
