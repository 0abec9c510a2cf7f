//! A GET request to the /v2/positions endpoint.

use vstd::prelude::*;

verus! {

use crate::endpoint::ApiError;
use crate::endpoint::ConversionError;
use crate::endpoint::Endpoint;
use crate::endpoint::FORBIDDEN;
use crate::endpoint::Method;
use crate::endpoint::TOO_MANY_REQUESTS;
use crate::endpoint::parse_api_error;
use crate::json::array_len_of;
use crate::json::element_string_of;
use crate::json::field_string_of;
use crate::json::json_array_len;
use crate::json::json_element_string;

/// An open position for one asset.
#[derive(Clone, Debug, PartialEq, Eq)]
pub struct Position {
    /// The ID of the asset the position is in.
    pub asset_id: String,
    /// The symbol of the asset.
    pub symbol: String,
    /// The exchange the asset trades on.
    pub exchange: String,
    /// The class of the asset.
    pub asset_class: String,
    /// The average price at which the position was entered.
    pub avg_entry_price: String,
    /// The number of shares held.
    pub qty: String,
    /// The side the position is on.
    pub side: String,
}

/// Whether element `i` of the body's array holds all the string fields a
/// position is read from.
pub open spec fn position_wf_at(bytes: Seq<u8>, i: int) -> bool {
    &&& element_string_of(bytes, i, "asset_id"@) is Some
    &&& element_string_of(bytes, i, "symbol"@) is Some
    &&& element_string_of(bytes, i, "exchange"@) is Some
    &&& element_string_of(bytes, i, "asset_class"@) is Some
    &&& element_string_of(bytes, i, "avg_entry_price"@) is Some
    &&& element_string_of(bytes, i, "qty"@) is Some
    &&& element_string_of(bytes, i, "side"@) is Some
}

/// Whether `p` is exactly what element `i` of the body's array decodes to.
pub open spec fn position_matches(bytes: Seq<u8>, i: int, p: Position) -> bool {
    &&& (element_string_of(bytes, i, "asset_id"@) matches Some(s) && p.asset_id@ == s)
    &&& (element_string_of(bytes, i, "symbol"@) matches Some(s) && p.symbol@ == s)
    &&& (element_string_of(bytes, i, "exchange"@) matches Some(s) && p.exchange@ == s)
    &&& (element_string_of(bytes, i, "asset_class"@) matches Some(s) && p.asset_class@ == s)
    &&& (element_string_of(bytes, i, "avg_entry_price"@) matches Some(s) && p.avg_entry_price@
        == s)
    &&& (element_string_of(bytes, i, "qty"@) matches Some(s) && p.qty@ == s)
    &&& (element_string_of(bytes, i, "side"@) matches Some(s) && p.side@ == s)
}

/// Whether the body decodes as a well-formed array of positions.
pub open spec fn positions_wf(bytes: Seq<u8>) -> bool {
    array_len_of(bytes) matches Some(n) && forall|i: int|
        0 <= i < n ==> #[trigger] position_wf_at(bytes, i)
}

/// Reads one position out of element `index` of the body's array.
fn parse_position(body: &Vec<u8>, index: usize) -> (r: Option<Position>)
    ensures
        r is Some <==> position_wf_at(body@, index as int),
        r matches Some(p) ==> position_matches(body@, index as int, p),
{
    let asset_id = json_element_string(body, index, "asset_id")?;
    let symbol = json_element_string(body, index, "symbol")?;
    let exchange = json_element_string(body, index, "exchange")?;
    let asset_class = json_element_string(body, index, "asset_class")?;
    let avg_entry_price = json_element_string(body, index, "avg_entry_price")?;
    let qty = json_element_string(body, index, "qty")?;
    let side = json_element_string(body, index, "side")?;
    Some(
        Position {
            asset_id,
            symbol,
            exchange,
            asset_class,
            avg_entry_price,
            qty,
            side,
        },
    )
}

/// Decodes a JSON array of position objects: it succeeds exactly on
/// well-formed arrays and returns their elements, decoded, in order.
fn parse_position_list(body: &Vec<u8>) -> (r: Result<Vec<Position>, ConversionError>)
    ensures
        r is Ok <==> positions_wf(body@),
        r matches Ok(v) ==> (array_len_of(body@) == Some(v@.len() as int) && forall|i: int|
            0 <= i < v@.len() ==> position_matches(body@, i, #[trigger] v@[i])),
{
    let n = match json_array_len(body) {
        Some(n) => n,
        None => {
            return Err(ConversionError::Json("expected a JSON array of positions".to_owned()));
        },
    };
    let mut out: Vec<Position> = Vec::new();
    let mut i: usize = 0;
    while i < n
        invariant
            i <= n,
            array_len_of(body@) == Some(n as int),
            out@.len() == i as nat,
            forall|j: int| 0 <= j < i ==> position_matches(body@, j, #[trigger] out@[j]),
            forall|j: int| 0 <= j < i ==> #[trigger] position_wf_at(body@, j),
        decreases n - i,
    {
        match parse_position(body, i) {
            Some(p) => out.push(p),
            None => {
                return Err(ConversionError::Json("malformed position object".to_owned()));
            },
        }
        i += 1;
    }
    Ok(out)
}

/// The representation of a GET request to the /v2/positions endpoint.
#[derive(Clone, Copy, Debug)]
pub struct List {}

/// The error cases the /v2/positions endpoint can report.
#[derive(Debug)]
pub enum ListError {
    /// The request was not permitted.
    NotPermitted(Result<ApiError, Vec<u8>>),
    /// The rate limit was exceeded, causing the request to be denied.
    RateLimitExceeded(Result<ApiError, Vec<u8>>),
}

impl Endpoint for List {
    type Input = ();

    type Output = Vec<Position>;

    type DomainError = ListError;

    open spec fn path_spec(input: &()) -> Seq<char> {
        "/v2/positions"@
    }

    open spec fn method_spec() -> Method {
        Method::Get
    }

    open spec fn body_spec(input: &()) -> Result<Seq<u8>, ConversionError> {
        Ok(Seq::empty())
    }

    open spec fn success_code(code: u16) -> bool {
        code == 200
    }

    open spec fn declared_error_code(code: u16) -> bool {
        false
    }

    open spec fn error_variant(code: u16, payload: Result<ApiError, Vec<u8>>) -> ListError {
        if code == TOO_MANY_REQUESTS {
            ListError::RateLimitExceeded(payload)
        } else {
            ListError::NotPermitted(payload)
        }
    }

    open spec fn parse_wf(body: Seq<u8>) -> bool {
        positions_wf(body)
    }

    open spec fn output_matches(body: Seq<u8>, output: Vec<Position>) -> bool {
        array_len_of(body) == Some(output@.len() as int) && forall|i: int|
            0 <= i < output@.len() ==> position_matches(body, i, #[trigger] output@[i])
    }

    open spec fn err_wf(body: Seq<u8>) -> bool {
        field_string_of(body, "message"@) is Some
    }

    open spec fn err_matches(body: Seq<u8>, err: ApiError) -> bool {
        field_string_of(body, "message"@) matches Some(m) && err.message@ == m
    }

    proof fn status_table_wf(code: u16) {
    }

    fn method() -> Method {
        Method::Get
    }

    fn path(input: &()) -> String {
        "/v2/positions".to_owned()
    }

    fn body(input: &()) -> Result<Vec<u8>, ConversionError> {
        let v: Vec<u8> = Vec::new();
        proof {
            assert(v@ =~= Seq::<u8>::empty());
        }
        Ok(v)
    }

    fn is_success(code: u16) -> bool {
        code == 200
    }

    fn is_declared_error(code: u16) -> bool {
        false
    }

    fn make_error(code: u16, payload: Result<ApiError, Vec<u8>>) -> ListError {
        if code == TOO_MANY_REQUESTS {
            ListError::RateLimitExceeded(payload)
        } else {
            ListError::NotPermitted(payload)
        }
    }

    fn parse(body: &Vec<u8>) -> Result<Vec<Position>, ConversionError> {
        parse_position_list(body)
    }

    fn parse_err(body: &Vec<u8>) -> Result<ApiError, Vec<u8>> {
        parse_api_error(body)
    }
}

/// For this endpoint, 403 maps to the not-permitted error and 429 to the
/// rate-limit error, whatever the error body decoded to.
pub proof fn list_universal_variants(payload: Result<ApiError, Vec<u8>>)
    ensures
        List::error_variant(FORBIDDEN, payload) == ListError::NotPermitted(payload),
        List::error_variant(TOO_MANY_REQUESTS, payload) == ListError::RateLimitExceeded(payload),
{
}

} // verus!
