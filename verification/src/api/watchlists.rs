//! A GET request to the /v2/watchlists endpoint.

use vstd::prelude::*;

verus! {

use crate::endpoint::ApiError;
use crate::endpoint::ConversionError;
use crate::endpoint::Endpoint;
use crate::endpoint::FORBIDDEN;
use crate::endpoint::Method;
use crate::endpoint::TOO_MANY_REQUESTS;
use crate::endpoint::parse_api_error;
use crate::json::array_len_of;
use crate::json::element_string_of;
use crate::json::field_string_of;
use crate::json::json_array_len;
use crate::json::json_element_string;

/// What millisecond timestamp an RFC 3339 date-time text denotes, when it
/// denotes one; determined by the text alone.
pub uninterp spec fn rfc3339_millis(s: Seq<char>) -> Option<i64>;

/// Relies on chrono's DateTime::parse_from_rfc3339 and timestamp_millis:
/// the timestamp an RFC 3339 text denotes is a function of the text alone.
#[verifier::external_body]
fn parse_rfc3339_millis(s: &str) -> (r: Option<i64>)
    ensures
        r == rfc3339_millis(s@),
{
    match chrono::DateTime::parse_from_rfc3339(s) {
        Ok(dt) => Some(dt.timestamp_millis()),
        Err(_) => None,
    }
}

/// A watchlist item.
#[derive(Clone, Debug, PartialEq, Eq)]
pub struct WatchlistItem {
    /// The watchlist's ID.
    pub id: String,
    /// The watchlist's user-defined name.
    pub name: String,
    /// The ID of the account the watchlist belongs to.
    pub account_id: String,
    /// When the watchlist was created, in milliseconds since the epoch.
    pub created_at: i64,
    /// When the watchlist was last updated, in milliseconds since the epoch.
    pub updated_at: i64,
}

/// Whether element `i` of the body's array holds all the fields a
/// watchlist item is read from, its timestamps in RFC 3339 form.
pub open spec fn watchlist_wf_at(bytes: Seq<u8>, i: int) -> bool {
    &&& element_string_of(bytes, i, "id"@) is Some
    &&& element_string_of(bytes, i, "name"@) is Some
    &&& element_string_of(bytes, i, "account_id"@) is Some
    &&& (element_string_of(bytes, i, "created_at"@) matches Some(t) && rfc3339_millis(t) is Some)
    &&& (element_string_of(bytes, i, "updated_at"@) matches Some(t) && rfc3339_millis(t) is Some)
}

/// Whether `item` is exactly what element `i` of the body's array decodes
/// to.
pub open spec fn watchlist_matches(bytes: Seq<u8>, i: int, item: WatchlistItem) -> bool {
    &&& (element_string_of(bytes, i, "id"@) matches Some(s) && item.id@ == s)
    &&& (element_string_of(bytes, i, "name"@) matches Some(s) && item.name@ == s)
    &&& (element_string_of(bytes, i, "account_id"@) matches Some(s) && item.account_id@ == s)
    &&& (element_string_of(bytes, i, "created_at"@) matches Some(t) && rfc3339_millis(t) == Some(
        item.created_at,
    ))
    &&& (element_string_of(bytes, i, "updated_at"@) matches Some(t) && rfc3339_millis(t) == Some(
        item.updated_at,
    ))
}

/// Whether the body decodes as a well-formed array of watchlist items.
pub open spec fn watchlists_wf(bytes: Seq<u8>) -> bool {
    array_len_of(bytes) matches Some(n) && forall|i: int|
        0 <= i < n ==> #[trigger] watchlist_wf_at(bytes, i)
}

/// The millisecond timestamp in the RFC 3339 string field `key` of element
/// `index` of the body's array.
fn get_timestamp_field(body: &Vec<u8>, index: usize, key: &str) -> (r: Option<i64>)
    ensures
        r is Some <==> (element_string_of(body@, index as int, key@) matches Some(t)
            && rfc3339_millis(t) is Some),
        r matches Some(ms) ==> (element_string_of(body@, index as int, key@) matches Some(t)
            && rfc3339_millis(t) == Some(ms)),
{
    let text = json_element_string(body, index, key)?;
    parse_rfc3339_millis(text.as_str())
}

/// Reads one watchlist item out of element `index` of the body's array.
fn parse_watchlist_item(body: &Vec<u8>, index: usize) -> (r: Option<WatchlistItem>)
    ensures
        r is Some <==> watchlist_wf_at(body@, index as int),
        r matches Some(item) ==> watchlist_matches(body@, index as int, item),
{
    let id = json_element_string(body, index, "id")?;
    let name = json_element_string(body, index, "name")?;
    let account_id = json_element_string(body, index, "account_id")?;
    let created_at = get_timestamp_field(body, index, "created_at")?;
    let updated_at = get_timestamp_field(body, index, "updated_at")?;
    Some(WatchlistItem { id, name, account_id, created_at, updated_at })
}

/// Decodes a JSON array of watchlist items: it succeeds exactly on
/// well-formed arrays and returns their elements, decoded, in order.
fn parse_watchlist_list(body: &Vec<u8>) -> (r: Result<Vec<WatchlistItem>, ConversionError>)
    ensures
        r is Ok <==> watchlists_wf(body@),
        r matches Ok(v) ==> (array_len_of(body@) == Some(v@.len() as int) && forall|i: int|
            0 <= i < v@.len() ==> watchlist_matches(body@, i, #[trigger] v@[i])),
{
    let n = match json_array_len(body) {
        Some(n) => n,
        None => {
            return Err(ConversionError::Json("expected a JSON array of watchlists".to_owned()));
        },
    };
    let mut out: Vec<WatchlistItem> = Vec::new();
    let mut i: usize = 0;
    while i < n
        invariant
            i <= n,
            array_len_of(body@) == Some(n as int),
            out@.len() == i as nat,
            forall|j: int| 0 <= j < i ==> watchlist_matches(body@, j, #[trigger] out@[j]),
            forall|j: int| 0 <= j < i ==> #[trigger] watchlist_wf_at(body@, j),
        decreases n - i,
    {
        match parse_watchlist_item(body, i) {
            Some(item) => out.push(item),
            None => {
                return Err(ConversionError::Json("malformed watchlist object".to_owned()));
            },
        }
        i += 1;
    }
    Ok(out)
}

/// The representation of a GET request to the /v2/watchlists endpoint.
#[derive(Clone, Copy, Debug)]
pub struct Get {}

/// The error cases the /v2/watchlists endpoint can report.
#[derive(Debug)]
pub enum GetError {
    /// The request was not permitted.
    NotPermitted(Result<ApiError, Vec<u8>>),
    /// The rate limit was exceeded, causing the request to be denied.
    RateLimitExceeded(Result<ApiError, Vec<u8>>),
}

impl Endpoint for Get {
    type Input = ();

    type Output = Vec<WatchlistItem>;

    type DomainError = GetError;

    open spec fn path_spec(input: &()) -> Seq<char> {
        "/v2/watchlists"@
    }

    open spec fn method_spec() -> Method {
        Method::Get
    }

    open spec fn body_spec(input: &()) -> Result<Seq<u8>, ConversionError> {
        Ok(Seq::empty())
    }

    open spec fn success_code(code: u16) -> bool {
        code == 200
    }

    open spec fn declared_error_code(code: u16) -> bool {
        false
    }

    open spec fn error_variant(code: u16, payload: Result<ApiError, Vec<u8>>) -> GetError {
        if code == TOO_MANY_REQUESTS {
            GetError::RateLimitExceeded(payload)
        } else {
            GetError::NotPermitted(payload)
        }
    }

    open spec fn parse_wf(body: Seq<u8>) -> bool {
        watchlists_wf(body)
    }

    open spec fn output_matches(body: Seq<u8>, output: Vec<WatchlistItem>) -> bool {
        array_len_of(body) == Some(output@.len() as int) && forall|i: int|
            0 <= i < output@.len() ==> watchlist_matches(body, i, #[trigger] output@[i])
    }

    open spec fn err_wf(body: Seq<u8>) -> bool {
        field_string_of(body, "message"@) is Some
    }

    open spec fn err_matches(body: Seq<u8>, err: ApiError) -> bool {
        field_string_of(body, "message"@) matches Some(m) && err.message@ == m
    }

    proof fn status_table_wf(code: u16) {
    }

    fn method() -> Method {
        Method::Get
    }

    fn path(input: &()) -> String {
        "/v2/watchlists".to_owned()
    }

    fn body(input: &()) -> Result<Vec<u8>, ConversionError> {
        let v: Vec<u8> = Vec::new();
        proof {
            assert(v@ =~= Seq::<u8>::empty());
        }
        Ok(v)
    }

    fn is_success(code: u16) -> bool {
        code == 200
    }

    fn is_declared_error(code: u16) -> bool {
        false
    }

    fn make_error(code: u16, payload: Result<ApiError, Vec<u8>>) -> GetError {
        if code == TOO_MANY_REQUESTS {
            GetError::RateLimitExceeded(payload)
        } else {
            GetError::NotPermitted(payload)
        }
    }

    fn parse(body: &Vec<u8>) -> Result<Vec<WatchlistItem>, ConversionError> {
        parse_watchlist_list(body)
    }

    fn parse_err(body: &Vec<u8>) -> Result<ApiError, Vec<u8>> {
        parse_api_error(body)
    }
}

/// For this endpoint, 403 maps to the not-permitted error and 429 to the
/// rate-limit error, whatever the error body decoded to.
pub proof fn get_universal_variants(payload: Result<ApiError, Vec<u8>>)
    ensures
        Get::error_variant(FORBIDDEN, payload) == GetError::NotPermitted(payload),
        Get::error_variant(TOO_MANY_REQUESTS, payload) == GetError::RateLimitExceeded(payload),
{
}

} // verus!
