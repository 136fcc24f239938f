//! JSON values as `serde_json` holds them, and what this crate relies on of
//! the `serde_json` functions that read and build them.
//!
//! A `serde_json::Value` is opaque to the verifier. Its mathematical value is
//! named by [`json_of`]; the specifications below say, without proof, what
//! each `serde_json` function does in terms of that value.

use vstd::prelude::*;

verus! {

/// The mathematical value of a JSON document.
pub ghost enum Json {
    Null,
    Bool(bool),
    /// A number that is a non-negative integer below 2^64.
    Natural(nat),
    /// Any other number: negative, or with a fraction or an exponent.
    OtherNumber,
    Text(Seq<char>),
    List(Seq<Json>),
    Object(Map<Seq<char>, Json>),
}

/// `serde_json::Value`, carried through as an opaque value.
#[verifier::external_type_specification]
#[verifier::external_body]
pub struct ExValue(serde_json::Value);

/// `serde_json::Map`, carried through as an opaque value.
#[verifier::external_type_specification]
#[verifier::external_body]
#[verifier::reject_recursive_types(K)]
#[verifier::reject_recursive_types(V)]
pub struct ExObject<K, V>(serde_json::Map<K, V>);

/// The JSON document that a `serde_json::Value` holds.
pub uninterp spec fn json_of(value: serde_json::Value) -> Json;

/// The members that a `serde_json::Map` holds, by key.
pub uninterp spec fn members_of(object: serde_json::Map<String, serde_json::Value>) -> Map<
    Seq<char>,
    Json,
>;

/// The JSON documents that a sequence of values holds, in order.
pub open spec fn jsons_of(values: Seq<serde_json::Value>) -> Seq<Json> {
    Seq::new(values.len(), |i: int| json_of(values[i]))
}

/// `serde_json::Value::get` with a string key: the member under `key` where
/// the value is an object that has one, and nothing otherwise.
#[verifier::external_body]
pub(crate) fn member<'a>(value: &'a serde_json::Value, key: &str) -> (found: Option<
    &'a serde_json::Value,
>)
    ensures
        match json_of(*value) {
            Json::Object(members) => if members.contains_key(key@) {
                found matches Some(v) && json_of(*v) == members[key@]
            } else {
                found is None
            },
            _ => found is None,
        },
{
    value.get(key)
}

/// `serde_json::Value::as_str`: the text where the value is a string, and
/// nothing otherwise.
pub assume_specification<'a>[ serde_json::Value::as_str ](value: &'a serde_json::Value) -> (text:
    Option<&'a str>)
    ensures
        match json_of(*value) {
            Json::Text(s) => text matches Some(t) && t@ == s,
            _ => text is None,
        },
;

/// `serde_json::Value::as_u64`: the number where the value is a non-negative
/// integer that fits in 64 bits, and nothing otherwise.
pub assume_specification[ serde_json::Value::as_u64 ](value: &serde_json::Value) -> (number:
    Option<u64>)
    ensures
        number matches Some(n) ==> json_of(*value) == Json::Natural(n as nat),
        number is None ==> !(json_of(*value) is Natural),
;

/// `serde_json::Value::as_array`: the elements where the value is an array,
/// and nothing otherwise.
pub assume_specification<'a>[ serde_json::Value::as_array ](value: &'a serde_json::Value) -> (items:
    Option<&'a Vec<serde_json::Value>>)
    ensures
        match json_of(*value) {
            Json::List(elements) => items matches Some(v) && jsons_of(v@) == elements,
            _ => items is None,
        },
;

/// `serde_json::Value::is_null`: whether the value is JSON's `null`.
pub assume_specification[ serde_json::Value::is_null ](value: &serde_json::Value) -> (null: bool)
    ensures
        null == (json_of(*value) is Null),
;

/// `serde_json::Value::String`: the JSON string with the given text.
#[verifier::external_body]
pub(crate) fn text_value(text: String) -> (value: serde_json::Value)
    ensures
        json_of(value) == Json::Text(text@),
{
    serde_json::Value::String(text)
}

/// `serde_json::Value::from` on a `u64`: the JSON number with that value.
#[verifier::external_body]
pub(crate) fn natural_value(number: u64) -> (value: serde_json::Value)
    ensures
        json_of(value) == Json::Natural(number as nat),
{
    serde_json::Value::from(number)
}

/// `serde_json::Value::Array`: the JSON array of the given elements, in order.
#[verifier::external_body]
pub(crate) fn list_value(items: Vec<serde_json::Value>) -> (value: serde_json::Value)
    ensures
        json_of(value) == Json::List(jsons_of(items@)),
{
    serde_json::Value::Array(items)
}

/// `serde_json::Value::Object`: the JSON object with the given members.
#[verifier::external_body]
pub(crate) fn object_value(members: serde_json::Map<String, serde_json::Value>) -> (value:
    serde_json::Value)
    ensures
        json_of(value) == Json::Object(members_of(members)),
{
    serde_json::Value::Object(members)
}

/// `serde_json::Map::new`: a map without members.
pub assume_specification[ serde_json::Map::<String, serde_json::Value>::new ]() -> (members:
    serde_json::Map<String, serde_json::Value>)
    ensures
        members_of(members) == (Map::<Seq<char>, Json>::empty()),
;

/// `serde_json::Map::insert`: puts `value` under `key`, in place of what was
/// there, and returns what was there.
pub assume_specification[ serde_json::Map::<String, serde_json::Value>::insert ](
    object: &mut serde_json::Map<String, serde_json::Value>,
    key: String,
    value: serde_json::Value,
) -> (previous: Option<serde_json::Value>)
    ensures
        members_of(*final(object)) == members_of(*old(object)).insert(key@, json_of(value)),
        match previous {
            Some(v) => members_of(*old(object)).contains_key(key@) && json_of(v) == members_of(
                *old(object),
            )[key@],
            None => !members_of(*old(object)).contains_key(key@),
        },
;

} // verus!
