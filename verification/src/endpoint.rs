//! The declarative endpoint contract and the classification of an HTTP
//! response into a success, a named domain error, or an unexpected status.

use vstd::prelude::*;

verus! {

use crate::error::HttpBody;
use crate::error::RequestError;
use crate::json::field_string_of;
use crate::json::json_field_string;

/// An error comprising the conversion failures encountered while building a
/// request body or decoding a response body.
#[derive(Clone, Debug, PartialEq, Eq)]
pub enum ConversionError {
    /// A JSON conversion failed; the payload describes the failure.
    Json(String),
    /// URL-encoding a piece of data failed; the payload describes the
    /// failure.
    UrlEncode(String),
}

impl ConversionError {
    /// The human-readable message of this error.
    pub open spec fn message_spec(&self) -> Seq<char> {
        match self {
            ConversionError::Json(_) => "failed to convert from/to JSON"@,
            ConversionError::UrlEncode(_) => "failed to URL-encode data"@,
        }
    }

    /// Renders the human-readable message of this error.
    pub fn render(&self) -> (r: String)
        ensures
            r@ == self.message_spec(),
    {
        match self {
            ConversionError::Json(_) => "failed to convert from/to JSON".to_owned(),
            ConversionError::UrlEncode(_) => "failed to URL-encode data".to_owned(),
        }
    }
}

/// An error as reported by API endpoints: the deserialized shape of a
/// domain error body.
#[derive(Clone, Debug, PartialEq, Eq)]
pub struct ApiError {
    /// The message as provided by the remote service.
    pub message: String,
}

/// The HTTP method of a request.
#[derive(Clone, Copy, Debug, PartialEq, Eq, Structural)]
pub enum Method {
    /// A GET request.
    Get,
    /// A POST request.
    Post,
    /// A PUT request.
    Put,
    /// A PATCH request.
    Patch,
    /// A DELETE request.
    Delete,
}

impl Method {
    /// The wire name of this method.
    pub open spec fn name_spec(&self) -> Seq<char> {
        match self {
            Method::Get => "GET"@,
            Method::Post => "POST"@,
            Method::Put => "PUT"@,
            Method::Patch => "PATCH"@,
            Method::Delete => "DELETE"@,
        }
    }

    /// The wire name of this method.
    pub fn name(&self) -> (r: &'static str)
        ensures
            r@ == self.name_spec(),
    {
        match self {
            Method::Get => "GET",
            Method::Post => "POST",
            Method::Put => "PUT",
            Method::Patch => "PATCH",
            Method::Delete => "DELETE",
        }
    }
}

/// A fresh copy of a byte vector.
pub(crate) fn copy_bytes(v: &Vec<u8>) -> (r: Vec<u8>)
    ensures
        r@ == v@,
{
    let mut out: Vec<u8> = Vec::new();
    let mut i: usize = 0;
    while i < v.len()
        invariant
            i <= v.len(),
            out@ == v@.subrange(0, i as int),
        decreases v.len() - i,
    {
        out.push(v[i]);
        i += 1;
        proof {
            assert(out@ =~= v@.subrange(0, i as int));
        }
    }
    proof {
        assert(v@.subrange(0, v@.len() as int) =~= v@);
    }
    out
}

/// The status code that every endpoint maps to its not-permitted error.
pub const FORBIDDEN: u16 = 403;

/// The status code that every endpoint maps to its rate-limit error.
pub const TOO_MANY_REQUESTS: u16 = 429;

/// Whether `code` is classified as a named error for every endpoint,
/// whatever the endpoint's own tables declare.
pub open spec fn is_universal_code(code: u16) -> bool {
    code == FORBIDDEN || code == TOO_MANY_REQUESTS
}

/// The declarative description of one request/response pair: input, output
/// and domain-error types, path and body construction, the status-code
/// tables, and the body decoders.
pub trait Endpoint {
    /// What a request of this endpoint is built from.
    type Input;

    /// What a successful exchange decodes to.
    type Output;

    /// The closed set of named failures this endpoint may report.
    type DomainError;

    /// The resource path derived from the input.
    spec fn path_spec(input: &Self::Input) -> Seq<char>;

    /// The HTTP method of the request.
    spec fn method_spec() -> Method;

    /// The request body derived from the input.
    spec fn body_spec(input: &Self::Input) -> Result<Seq<u8>, ConversionError>;

    /// Whether `code` is in this endpoint's success table.
    spec fn success_code(code: u16) -> bool;

    /// Whether `code` is one of this endpoint's own named-error codes.
    spec fn declared_error_code(code: u16) -> bool;

    /// The named domain error for `code`, carrying the decoded error
    /// payload, or the raw body where the payload did not decode.
    spec fn error_variant(code: u16, payload: Result<ApiError, Vec<u8>>) -> Self::DomainError;

    /// The status tables keep success codes disjoint from named-error
    /// codes, the two universal codes included.
    proof fn status_table_wf(code: u16)
        ensures
            Self::success_code(code) ==> !(is_universal_code(code)
                || Self::declared_error_code(code)),
    ;

    /// The HTTP method to issue the request with.
    fn method() -> (r: Method)
        ensures
            r == Self::method_spec(),
    ;

    /// Builds the resource path for the given input.
    fn path(input: &Self::Input) -> (r: String)
        ensures
            r@ == Self::path_spec(input),
    ;

    /// Builds the request body for the given input; a failure here
    /// short-circuits the dispatch before any network exchange.
    fn body(input: &Self::Input) -> (r: Result<Vec<u8>, ConversionError>)
        ensures
            r matches Ok(v) ==> (Self::body_spec(input) matches Ok(s) && v@ == s),
            r matches Err(e) ==> (Self::body_spec(input) matches Err(e2) && e == e2),
    ;

    /// Whether `code` is in this endpoint's success table.
    fn is_success(code: u16) -> (b: bool)
        ensures
            b == Self::success_code(code),
    ;

    /// Whether `code` is one of this endpoint's own named-error codes.
    fn is_declared_error(code: u16) -> (b: bool)
        ensures
            b == Self::declared_error_code(code),
    ;

    /// Wraps a decoded error payload in the named domain error for `code`.
    fn make_error(code: u16, payload: Result<ApiError, Vec<u8>>) -> (r: Self::DomainError)
        requires
            is_universal_code(code) || Self::declared_error_code(code),
        ensures
            r == Self::error_variant(code, payload),
    ;

    /// Whether `body` decodes as a well-formed success body of this
    /// endpoint.
    spec fn parse_wf(body: Seq<u8>) -> bool;

    /// Whether `output` is what `body` decodes to.
    spec fn output_matches(body: Seq<u8>, output: Self::Output) -> bool;

    /// Whether `body` decodes as a well-formed error body.
    spec fn err_wf(body: Seq<u8>) -> bool;

    /// Whether `err` is what `body` decodes to as an error payload.
    spec fn err_matches(body: Seq<u8>, err: ApiError) -> bool;

    /// Decodes a success body into the output type: it succeeds exactly on
    /// well-formed bodies and returns their decoding.
    fn parse(body: &Vec<u8>) -> (r: Result<Self::Output, ConversionError>)
        ensures
            r is Ok <==> Self::parse_wf(body@),
            r matches Ok(v) ==> Self::output_matches(body@, v),
    ;

    /// Decodes an error body: it succeeds exactly on well-formed error
    /// bodies and returns their decoding; a body that does not decode is
    /// handed back unchanged, so no diagnostic detail is lost.
    fn parse_err(body: &Vec<u8>) -> (r: Result<ApiError, Vec<u8>>)
        ensures
            r is Ok <==> Self::err_wf(body@),
            r matches Ok(a) ==> Self::err_matches(body@, a),
            r matches Err(raw) ==> raw@ == body@,
    ;
}

/// The three classes a status code can fall in under a given endpoint.
#[derive(Clone, Copy, Debug, PartialEq, Eq, Structural)]
pub enum StatusClass {
    /// The code is in the endpoint's success table.
    Success,
    /// The code maps to a named domain error.
    NamedError,
    /// The code is in neither table.
    Unexpected,
}

/// The classification of `code` under endpoint `E`: the success table is
/// consulted first, then the named-error table, which always contains the
/// two universal codes; any other code is unexpected.
pub open spec fn spec_classify<E: Endpoint>(code: u16) -> StatusClass {
    if E::success_code(code) {
        StatusClass::Success
    } else if is_universal_code(code) || E::declared_error_code(code) {
        StatusClass::NamedError
    } else {
        StatusClass::Unexpected
    }
}

/// Classifies `code` under endpoint `E`.
pub fn classify<E: Endpoint>(code: u16) -> (c: StatusClass)
    ensures
        c == spec_classify::<E>(code),
{
    if E::is_success(code) {
        StatusClass::Success
    } else if code == FORBIDDEN || code == TOO_MANY_REQUESTS || E::is_declared_error(code) {
        StatusClass::NamedError
    } else {
        StatusClass::Unexpected
    }
}

/// For every status code, the three classes are mutually exclusive and one
/// of them holds: classification is total and deterministic.
pub proof fn classification_is_total<E: Endpoint>(code: u16)
    ensures
        spec_classify::<E>(code) == StatusClass::Success <==> E::success_code(code),
        spec_classify::<E>(code) == StatusClass::NamedError <==> (is_universal_code(code)
            || E::declared_error_code(code)),
        spec_classify::<E>(code) == StatusClass::Unexpected <==> (!E::success_code(code)
            && !is_universal_code(code) && !E::declared_error_code(code)),
{
    E::status_table_wf(code);
}

/// The two universal codes classify as named errors for every endpoint,
/// endpoints that declare no errors of their own included.
pub proof fn universal_codes_are_named<E: Endpoint>()
    ensures
        spec_classify::<E>(FORBIDDEN) == StatusClass::NamedError,
        spec_classify::<E>(TOO_MANY_REQUESTS) == StatusClass::NamedError,
{
    E::status_table_wf(FORBIDDEN);
    E::status_table_wf(TOO_MANY_REQUESTS);
}

/// Settles the outcome of decoding a success body: a decoded value is
/// returned unchanged, and a decoding failure becomes a conversion error,
/// never a domain error.
pub fn settle_success<O, D>(parsed: Result<O, ConversionError>) -> (r: Result<O, RequestError<D>>)
    ensures
        parsed matches Ok(o) ==> (r matches Ok(o2) && o2 == o),
        parsed matches Err(e) ==> (r matches Err(re) && re == RequestError::<D>::Conversion(e)),
{
    match parsed {
        Ok(o) => Ok(o),
        Err(e) => Err(RequestError::Conversion(e)),
    }
}

/// Wraps a named-error payload in the endpoint's domain error for `code`:
/// a decoded message payload is carried exactly, and an undecodable payload
/// is carried as its raw bytes.
pub fn settle_named<E: Endpoint>(code: u16, payload: Result<ApiError, Vec<u8>>) -> (r:
    RequestError<E::DomainError>)
    requires
        is_universal_code(code) || E::declared_error_code(code),
    ensures
        r == RequestError::<E::DomainError>::Endpoint(E::error_variant(code, payload)),
{
    RequestError::Endpoint(E::make_error(code, payload))
}

/// Everything the transport needs to issue one request, derived from the
/// endpoint's input.
pub struct RequestParts {
    /// The method to issue the request with.
    pub method: Method,
    /// The resource path, relative to the configured base URL.
    pub path: String,
    /// The request body.
    pub body: Vec<u8>,
}

/// Builds the transport-level parts of one request of endpoint `E`; a
/// body-construction failure short-circuits as a conversion error, before
/// any network exchange takes place.
pub fn build_request<E: Endpoint>(input: &E::Input) -> (r: Result<
    RequestParts,
    RequestError<E::DomainError>,
>)
    ensures
        E::body_spec(input) matches Ok(s) ==> (r matches Ok(p) && p.method == E::method_spec()
            && p.path@ == E::path_spec(input) && p.body@ == s),
        E::body_spec(input) matches Err(e) ==> (r matches Err(re)
            && re == RequestError::<E::DomainError>::Conversion(e)),
{
    let method = E::method();
    let path = E::path(input);
    match E::body(input) {
        Ok(body) => Ok(RequestParts { method, path, body }),
        Err(e) => Err(RequestError::Conversion(e)),
    }
}

/// Classifies one received response under endpoint `E` and decodes its body
/// accordingly: a success code decodes as output, a named-error code
/// decodes as a domain error, and any other code is reported with the raw
/// bytes verbatim.
pub fn evaluate<E: Endpoint>(code: u16, body: &Vec<u8>) -> (r: Result<
    E::Output,
    RequestError<E::DomainError>,
>)
    ensures
        spec_classify::<E>(code) == StatusClass::Success && E::parse_wf(body@) ==> (r matches Ok(v)
            && E::output_matches(body@, v)),
        spec_classify::<E>(code) == StatusClass::Success && !E::parse_wf(body@) ==> (r matches Err(
            re,
        ) && re is Conversion),
        r is Ok ==> E::success_code(code),
        spec_classify::<E>(code) == StatusClass::NamedError && E::err_wf(body@) ==> (r matches Err(
            re,
        ) && re matches RequestError::Endpoint(d) && (exists|a: ApiError|
            d == #[trigger] E::error_variant(code, Ok(a)) && E::err_matches(body@, a))),
        spec_classify::<E>(code) == StatusClass::NamedError && !E::err_wf(body@) ==> (r matches Err(
            re,
        ) && re matches RequestError::Endpoint(d) && (exists|raw: Vec<u8>|
            d == #[trigger] E::error_variant(code, Err(raw)) && raw@ == body@)),
        spec_classify::<E>(code) == StatusClass::Unexpected ==> (r matches Err(re) && re matches
            RequestError::HttpStatus(c, b) && c == code && b@ == body@),
{
    match classify::<E>(code) {
        StatusClass::Success => settle_success(E::parse(body)),
        StatusClass::NamedError => {
            let payload = E::parse_err(body);
            let ghost gp = payload;
            let err = settle_named::<E>(code, payload);
            proof {
                match gp {
                    Ok(a) => {
                        assert(err == RequestError::<E::DomainError>::Endpoint(
                            E::error_variant(code, Ok(a)),
                        ));
                    },
                    Err(raw) => {
                        assert(err == RequestError::<E::DomainError>::Endpoint(
                            E::error_variant(code, Err(raw)),
                        ));
                    },
                }
            }
            Err(err)
        },
        StatusClass::Unexpected => Err(
            RequestError::HttpStatus(code, HttpBody::new(copy_bytes(body))),
        ),
    }
}

/// Decodes the standard error body, a JSON object holding a `message`
/// string: it succeeds exactly when the body holds such a document and
/// carries that exact message. Any other body is handed back unchanged.
pub fn parse_api_error(body: &Vec<u8>) -> (r: Result<ApiError, Vec<u8>>)
    ensures
        r is Ok <==> field_string_of(body@, "message"@) is Some,
        r matches Ok(a) ==> (field_string_of(body@, "message"@) matches Some(m)
            && a.message@ == m),
        r matches Err(raw) ==> raw@ == body@,
{
    match json_field_string(body, "message") {
        Some(message) => Ok(ApiError { message }),
        None => Err(copy_bytes(body)),
    }
}

} // verus!
