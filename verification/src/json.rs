//! The boundary to `serde_json`: parsing a reply, reading a parsed value,
//! and writing the body of a request.
//!
//! Nothing in this file is proved. Each function here makes one call into
//! `serde_json`, and its contract says what that call is believed to do,
//! over a name for the call's result. The rest of the library is verified
//! against these contracts.

use crate::request::{field_views, Field};
use vstd::prelude::*;

verus! {

/// `serde_json::Value`, a parsed JSON value, which is read through the
/// functions below only.
#[verifier::external_type_specification]
#[verifier::external_body]
pub struct ExValue(serde_json::Value);

/// `serde_json::Error`, of which the library reads nothing.
#[verifier::external_type_specification]
#[verifier::external_body]
pub struct ExJsonError(serde_json::Error);

/// The JSON value that `serde_json::from_slice` reads from `body`, or `None`
/// where it reports an error: where `body` is not one JSON document in
/// UTF-8 from its first byte to its last.
pub uninterp spec fn json_document(body: Seq<u8>) -> Option<serde_json::Value>;

/// The member called `name` of `value` as `serde_json::Value::get` finds it:
/// `None` where `value` is no object or has no such member.
pub uninterp spec fn json_member(value: serde_json::Value, name: Seq<char>) -> Option<
    serde_json::Value,
>;

/// The text of `value` as `serde_json::Value::as_str` gives it: `None` where
/// `value` is no JSON string.
pub uninterp spec fn json_text(value: serde_json::Value) -> Option<Seq<char>>;

/// The integer in `value` as `serde_json::Value::as_i64` gives it: `None`
/// where `value` is no number, a fraction, or beyond the range of `i64`.
pub uninterp spec fn json_integer(value: serde_json::Value) -> Option<i64>;

/// The elements of `value` as `serde_json::Value::as_array` gives them:
/// `None` where `value` is no JSON array.
pub uninterp spec fn json_elements(value: serde_json::Value) -> Option<Seq<serde_json::Value>>;

/// Calls `serde_json::from_slice` to read one JSON value from `body`.
/// Believed: the outcome depends on the bytes alone, and is an error exactly
/// where `json_document` is `None`.
#[verifier::external_body]
pub(crate) fn parse_document(body: &[u8]) -> (r: Result<serde_json::Value, serde_json::Error>)
    ensures
        r is Ok <==> json_document(body@) is Some,
        r is Ok ==> json_document(body@) == Some(r->Ok_0),
{
    serde_json::from_slice(body)
}

/// Calls `serde_json::Value::get` with a member's name. Believed: it hands
/// out the member of that name where `value` is an object that has one, and
/// nothing otherwise.
#[verifier::external_body]
pub(crate) fn member<'a>(value: &'a serde_json::Value, name: &str) -> (r: Option<
    &'a serde_json::Value,
>)
    ensures
        r is Some <==> json_member(*value, name@) is Some,
        r is Some ==> json_member(*value, name@) == Some(*r->Some_0),
{
    value.get(name)
}

/// Calls `serde_json::Value::as_str`. Believed: it hands out the text of a
/// JSON string, and nothing for any other value.
#[verifier::external_body]
pub(crate) fn text<'a>(value: &'a serde_json::Value) -> (r: Option<&'a str>)
    ensures
        r is Some <==> json_text(*value) is Some,
        r is Some ==> json_text(*value) == Some(r->Some_0@),
{
    value.as_str()
}

/// Calls `serde_json::Value::as_i64`. Believed: it gives the integer of a
/// JSON number that is written without fraction or exponent and fits
/// `i64`, and nothing for any other value.
#[verifier::external_body]
pub(crate) fn integer(value: &serde_json::Value) -> (r: Option<i64>)
    ensures
        r == json_integer(*value),
{
    value.as_i64()
}

/// Calls `serde_json::Value::as_array`. Believed: it hands out the elements
/// of a JSON array in their order, and nothing for any other value.
#[verifier::external_body]
pub(crate) fn elements<'a>(value: &'a serde_json::Value) -> (r: Option<&'a Vec<serde_json::Value>>)
    ensures
        r is Some <==> json_elements(*value) is Some,
        r is Some ==> json_elements(*value) == Some(r->Some_0@),
{
    value.as_array()
}

/// The JSON text that `serde_json::to_vec` writes for the object whose
/// members are `fields`, each value a JSON string.
pub uninterp spec fn json_object_bytes(fields: Seq<(Seq<char>, Seq<char>)>) -> Seq<u8>;

/// Calls `serde_json::to_vec` on the map from each field's name to its
/// value. Believed: the text depends on the fields alone, and the call
/// succeeds, since it is documented to fail only on a key that is no string
/// or on a value that refuses to be written, and a map from `&str` to
/// `&str` has neither.
#[verifier::external_body]
pub(crate) fn render_object(fields: &Vec<Field>) -> (r: Result<Vec<u8>, serde_json::Error>)
    ensures
        r is Ok,
        r->Ok_0@ == json_object_bytes(field_views(fields@)),
{
    let members: std::collections::BTreeMap<&str, &str> = fields.iter().map(
        |f| (f.name.as_str(), f.value.as_str()),
    ).collect();
    serde_json::to_vec(&members)
}

} // verus!
