//! The JSON decoder that reads probe reports.
//!
//! Decoding is done by `serde_json`. Verus sees a decoded document as an
//! opaque value: what the decoder and its accessors return is given a name
//! here, and the contracts of the functions marked `external_body` are
//! believed, not proved. The verified functions of this module and of the
//! probe are stated over those names.

use vstd::prelude::*;

verus! {

/// `serde_json::Value`, a decoded JSON document or a part of one.
#[verifier::external_type_specification]
#[verifier::external_body]
pub struct ExJsonValue(serde_json::Value);

/// `serde_json::Error`, the failure of a decoding.
#[verifier::external_type_specification]
#[verifier::external_body]
pub struct ExJsonError(serde_json::Error);

/// The document that `serde_json::from_slice` decodes from `bytes`; `None`
/// where it fails.
pub uninterp spec fn json_document(bytes: Seq<u8>) -> Option<serde_json::Value>;

/// What indexing `v` by the string `key` gives: the member of that name
/// where `v` is an object that has one, JSON null in every other case.
pub uninterp spec fn json_member(v: serde_json::Value, key: Seq<char>) -> serde_json::Value;

/// The text of `v` where `v` is a JSON string; `None` for any other value.
pub uninterp spec fn json_text(v: serde_json::Value) -> Option<Seq<char>>;

/// The value of `v` where `v` is a JSON number that is an integer from 0 to
/// `u64::MAX`; `None` for any other value.
pub uninterp spec fn json_number(v: serde_json::Value) -> Option<u64>;

/// The elements of `v`, in order, where `v` is a JSON array; `None` for any
/// other value.
pub uninterp spec fn json_items(v: serde_json::Value) -> Option<Seq<serde_json::Value>>;

/// Calls `serde_json::from_slice` to decode a `serde_json::Value`. The
/// contract claims that the outcome depends on the bytes alone: a success
/// gives the document that `json_document` names, and a failure means that
/// there is none. Input nested deeper than the decoder's limit is a failure.
#[verifier::external_body]
pub(crate) fn decode(bytes: &[u8]) -> (r: Result<serde_json::Value, serde_json::Error>)
    ensures
        r is Ok ==> json_document(bytes@) == Some(r->Ok_0),
        r is Err ==> json_document(bytes@) is None,
{
    serde_json::from_slice(bytes)
}

/// Indexes a `serde_json::Value` by a string, through its `Index` impl,
/// which hands out JSON null in place of a missing member. The contract
/// claims that the result is what `json_member` names.
#[verifier::external_body]
pub(crate) fn member<'a>(v: &'a serde_json::Value, key: &str) -> (r: &'a serde_json::Value)
    ensures
        *r == json_member(*v, key@),
{
    &v[key]
}

/// Calls `serde_json::Value::as_str`. The contract claims that the result
/// is the text that `json_text` names, and `None` exactly where that is.
#[verifier::external_body]
pub(crate) fn as_text<'a>(v: &'a serde_json::Value) -> (r: Option<&'a str>)
    ensures
        r is Some ==> json_text(*v) == Some(r->Some_0@),
        r is None ==> json_text(*v) is None,
{
    v.as_str()
}

/// Calls `serde_json::Value::as_u64`. The contract claims that the result
/// is what `json_number` names.
#[verifier::external_body]
pub(crate) fn as_number(v: &serde_json::Value) -> (r: Option<u64>)
    ensures
        r == json_number(*v),
{
    v.as_u64()
}

/// Calls `serde_json::Value::as_array`. The contract claims that the result
/// holds the elements that `json_items` names, and is `None` exactly where
/// that is.
#[verifier::external_body]
pub(crate) fn as_items<'a>(v: &'a serde_json::Value) -> (r: Option<&'a Vec<serde_json::Value>>)
    ensures
        r is Some ==> json_items(*v) == Some(r->Some_0@),
        r is None ==> json_items(*v) is None,
{
    v.as_array()
}

/// The message of a `serde_json::Error`, as its `Display` impl writes it.
/// Nothing is claimed of the text.
#[verifier::external_body]
pub(crate) fn error_text(e: &serde_json::Error) -> (r: String) {
    e.to_string()
}

/// The text of the member `key` of `v`, where `v` is an object with such a
/// member and the member is a string.
pub open spec fn text_at(v: serde_json::Value, key: Seq<char>) -> Option<Seq<char>> {
    json_text(json_member(v, key))
}

/// The value of the member `key` of `v`, where `v` is an object with such a
/// member and the member is a number that is a `u64`.
pub open spec fn number_at(v: serde_json::Value, key: Seq<char>) -> Option<u64> {
    json_number(json_member(v, key))
}

/// The text of the string member `key` of `v`.
pub(crate) fn text_field(v: &serde_json::Value, key: &str) -> (text: Option<String>)
    ensures
        text.deep_view() == text_at(*v, key@),
{
    match as_text(member(v, key)) {
        Some(s) => Some(s.to_owned()),
        None => None,
    }
}

/// The value of the number member `key` of `v`.
pub(crate) fn number_field(v: &serde_json::Value, key: &str) -> (number: Option<u64>)
    ensures
        number == number_at(*v, key@),
{
    as_number(member(v, key))
}

} // verus!
