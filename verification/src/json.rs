//! JSON documents, as `serde_json` reads them.
//!
//! A document is kept as a `serde_json::Value`, which the verifier cannot
//! look into. What a value holds is named by the functions below, and the
//! contracts of the calls into `serde_json` are stated over those names.

use vstd::prelude::*;

verus! {

/// `serde_json::Value`, a JSON document or a part of one. Nothing of its
/// inside is known here.
#[verifier::external_type_specification]
#[verifier::external_body]
pub struct ExValue(serde_json::Value);

/// The document that `serde_json::from_str` reads from `text`, where `text`
/// is JSON.
pub uninterp spec fn json_document(text: Seq<char>) -> Option<serde_json::Value>;

/// The member of the object `v` under `key`; `None` where `v` is no object or
/// has no such member.
pub uninterp spec fn json_member(v: serde_json::Value, key: Seq<char>) -> Option<
    serde_json::Value,
>;

/// The elements of the array `v`; `None` where `v` is no array.
pub uninterp spec fn json_items(v: serde_json::Value) -> Option<Seq<serde_json::Value>>;

/// The text of the string `v`; `None` where `v` is no string.
pub uninterp spec fn json_string(v: serde_json::Value) -> Option<Seq<char>>;

/// The number `v`, where `v` is an integer that an `i64` holds; else `None`.
pub uninterp spec fn json_integer(v: serde_json::Value) -> Option<i64>;

/// `serde_json::from_str` at the type `Value`. The document read depends on
/// the text alone; the error of a text that is not JSON is dropped.
#[verifier::external_body]
pub(crate) fn parse(text: &str) -> (r: Option<serde_json::Value>)
    ensures
        r == json_document(text@),
{
    serde_json::from_str(text).ok()
}

/// `Value::get` with a string index: the member under `key`.
#[verifier::external_body]
pub(crate) fn member<'a>(v: &'a serde_json::Value, key: &str) -> (r: Option<
    &'a serde_json::Value,
>)
    ensures
        match r {
            Some(m) => json_member(*v, key@) == Some(*m),
            None => json_member(*v, key@) is None,
        },
{
    v.get(key)
}

/// `Value::as_array`: the elements, where the value is an array.
pub assume_specification[ serde_json::Value::as_array ](v: &serde_json::Value) -> (r: Option<
    &Vec<serde_json::Value>,
>)
    ensures
        match r {
            Some(items) => json_items(*v) == Some(items@),
            None => json_items(*v) is None,
        },
;

/// `Value::as_str`: the text, where the value is a string.
pub assume_specification[ serde_json::Value::as_str ](v: &serde_json::Value) -> (r: Option<&str>)
    ensures
        match r {
            Some(s) => json_string(*v) == Some(s@),
            None => json_string(*v) is None,
        },
;

/// `Value::as_i64`: the number, where the value is an integer in `i64`.
pub assume_specification[ serde_json::Value::as_i64 ](v: &serde_json::Value) -> (r: Option<i64>)
    ensures
        r == json_integer(*v),
;

} // verus!
