//! Trusted queries against JSON documents through the serde_json crate.
//! Each query goes from the raw bytes to plain values, and its result is
//! given a name: the result is a function of the bytes (and the key or
//! index queried) alone, so the names let callers state exactly what a
//! body decodes to.

use vstd::prelude::*;

verus! {

/// What the string field `key` of the document's top-level JSON object
/// holds, when the bytes parse as an object holding such a string field;
/// determined by the bytes and the key alone.
pub uninterp spec fn field_string_of(bytes: Seq<u8>, key: Seq<char>) -> Option<Seq<char>>;

/// How many elements the document's top-level JSON array holds, when the
/// bytes parse as an array; determined by the bytes alone.
pub uninterp spec fn array_len_of(bytes: Seq<u8>) -> Option<int>;

/// What the string field `key` of element `index` of the document's
/// top-level JSON array holds, when the bytes parse as an array whose
/// element `index` is an object holding such a string field; determined by
/// the bytes, the index, and the key alone.
pub uninterp spec fn element_string_of(bytes: Seq<u8>, index: int, key: Seq<char>) -> Option<
    Seq<char>,
>;

/// Relies on serde_json (from_slice to a Value, Value::get with a key,
/// Value::as_str): reads the string field `key` of the document's
/// top-level object.
#[verifier::external_body]
pub(crate) fn json_field_string(body: &Vec<u8>, key: &str) -> (r: Option<String>)
    ensures
        r is Some <==> field_string_of(body@, key@) is Some,
        r matches Some(s) ==> (field_string_of(body@, key@) matches Some(m) && s@ == m),
{
    let doc = serde_json::from_slice::<serde_json::Value>(body.as_slice()).ok()?;
    let field = doc.get(key)?;
    let s = field.as_str()?;
    Some(s.to_owned())
}

/// Relies on serde_json (from_slice to a Value, Value::as_array): counts
/// the elements of the document's top-level array.
#[verifier::external_body]
pub(crate) fn json_array_len(body: &Vec<u8>) -> (r: Option<usize>)
    ensures
        r matches Some(n) ==> array_len_of(body@) == Some(n as int),
        r is None ==> array_len_of(body@) is None,
{
    let doc = serde_json::from_slice::<serde_json::Value>(body.as_slice()).ok()?;
    let arr = doc.as_array()?;
    Some(arr.len())
}

/// Relies on serde_json (from_slice to a Value, Value::get with an index
/// and with a key, Value::as_str): reads the string field `key` of element
/// `index` of the document's top-level array.
#[verifier::external_body]
pub(crate) fn json_element_string(body: &Vec<u8>, index: usize, key: &str) -> (r: Option<String>)
    ensures
        r is Some <==> element_string_of(body@, index as int, key@) is Some,
        r matches Some(s) ==> (element_string_of(body@, index as int, key@) matches Some(m)
            && s@ == m),
{
    let doc = serde_json::from_slice::<serde_json::Value>(body.as_slice()).ok()?;
    let element = doc.get(index)?;
    let field = element.get(key)?;
    let s = field.as_str()?;
    Some(s.to_owned())
}

} // verus!
