//! JSON documents as `serde_json` holds them, and what they hold as mathematical values.
use serde_json::Value;
use vstd::prelude::*;

use crate::double::{double_bits, Double, Numeral};

verus! {

/// A JSON document.
#[verifier::ext_equal]
pub enum Json {
    Null,
    Bool(bool),
    Num(Numeral),
    Text(Seq<char>),
    List(Seq<Json>),
    Object(Map<Seq<char>, Json>),
}

/// `serde_json::Value`: a JSON document.
#[verifier::external_type_specification]
#[verifier::external_body]
pub struct ExValue(Value);

/// `serde_json::Map`: the members of a JSON object.
#[verifier::external_type_specification]
#[verifier::external_body]
#[verifier::reject_recursive_types(K)]
#[verifier::reject_recursive_types(V)]
pub struct ExMap<K, V>(serde_json::Map<K, V>);

/// The document that a `serde_json::Value` holds.
pub uninterp spec fn json_of(value: Value) -> Json;

/// The members that a `serde_json::Map` holds.
pub uninterp spec fn members_of(object: serde_json::Map<String, Value>) -> Map<Seq<char>, Json>;

/// How serde_json writes a document, in its compact form.
pub uninterp spec fn compact_text(document: Json) -> Seq<char>;

/// The member `key` of an object.
pub open spec fn member(document: Json, key: Seq<char>) -> Option<Json> {
    match document {
        Json::Object(members) if members.dom().contains(key) => Some(members[key]),
        _ => None,
    }
}

/// No members at all.
pub open spec fn empty_object() -> Map<Seq<char>, Json> {
    Map::empty()
}

/// The elements of an array.
pub open spec fn elements(document: Json) -> Option<Seq<Json>> {
    match document {
        Json::List(list) => Some(list),
        _ => None,
    }
}

/// The text of a string.
pub open spec fn string(document: Json) -> Option<Seq<char>> {
    match document {
        Json::Text(text) => Some(text),
        _ => None,
    }
}

/// The member `key` of an object that may be missing itself.
pub open spec fn member_of(document: Option<Json>, key: Seq<char>) -> Option<Json> {
    match document {
        Some(inner) => member(inner, key),
        None => None,
    }
}

/// The elements of the array under `key`.
pub open spec fn list_under(document: Json, key: Seq<char>) -> Option<Seq<Json>> {
    match member(document, key) {
        Some(inner) => elements(inner),
        None => None,
    }
}

/// The first element of a list that may be missing itself.
pub open spec fn first_of(list: Option<Seq<Json>>) -> Option<Json> {
    match list {
        Some(inner) => if inner.len() > 0 {
            Some(inner[0])
        } else {
            None
        },
        None => None,
    }
}

/// The text of the string under `key`.
pub open spec fn text_under(document: Json, key: Seq<char>) -> Option<Seq<char>> {
    match member(document, key) {
        Some(inner) => string(inner),
        None => None,
    }
}

/// The number under `key`, as a double.
pub open spec fn number_under(document: Json, key: Seq<char>) -> Option<u64> {
    match member(document, key) {
        Some(Json::Num(numeral)) => Some(double_bits(numeral)),
        _ => None,
    }
}

/// The documents that a sequence of values holds.
pub open spec fn jsons_of(values: Seq<Value>) -> Seq<Json> {
    Seq::new(values.len(), |i: int| json_of(values[i]))
}

/// The member `key` of an object, if there is both: `Value::get`.
#[verifier::external_body]
pub(crate) fn field<'a>(value: &'a Value, key: &str) -> (found: Option<&'a Value>)
    ensures
        match found {
            Some(inner) => member(json_of(*value), key@) == Some(json_of(*inner)),
            None => member(json_of(*value), key@) is None,
        },
{
    value.get(key)
}

/// The elements, where the value is an array: `Value::as_array`.
#[verifier::external_body]
pub(crate) fn items(value: &Value) -> (found: Option<&Vec<Value>>)
    ensures
        match found {
            Some(list) => elements(json_of(*value)) == Some(jsons_of(list@)),
            None => elements(json_of(*value)) is None,
        },
{
    value.as_array()
}

/// The text, where the value is a string: `Value::as_str`.
#[verifier::external_body]
pub(crate) fn string_of(value: &Value) -> (found: Option<&str>)
    ensures
        match found {
            Some(text) => string(json_of(*value)) == Some(text@),
            None => string(json_of(*value)) is None,
        },
{
    value.as_str()
}

/// The members, where the value is an object: `Value::as_object`.
#[verifier::external_body]
pub(crate) fn members(value: &Value) -> (found: Option<&serde_json::Map<String, Value>>)
    ensures
        match found {
            Some(object) => json_of(*value) == Json::Object(members_of(*object)),
            None => !(json_of(*value) is Object),
        },
{
    value.as_object()
}

/// A copy of a `serde_json::Value` holds the same document.
pub assume_specification[ <Value as Clone>::clone ](value: &Value) -> (copy: Value)
    ensures
        json_of(copy) == json_of(*value),
;

/// A copy of the members of an object, one by one: `Map::clone`.
#[verifier::external_body]
pub(crate) fn copy_members(object: &serde_json::Map<String, Value>) -> (copy: serde_json::Map<
    String,
    Value,
>)
    ensures
        members_of(copy) == members_of(*object),
{
    object.clone()
}

/// The member with a key, where there is one: `Map::get`.
#[verifier::external_body]
pub(crate) fn lookup<'a>(object: &'a serde_json::Map<String, Value>, key: &str) -> (found: Option<
    &'a Value,
>)
    ensures
        match found {
            Some(value) => {
                &&& members_of(*object).dom().contains(key@)
                &&& members_of(*object)[key@] == json_of(*value)
            },
            None => !members_of(*object).dom().contains(key@),
        },
{
    object.get(key)
}

/// An object without members: `Map::new`.
#[verifier::external_body]
pub(crate) fn no_members() -> (object: serde_json::Map<String, Value>)
    ensures
        members_of(object) == empty_object(),
{
    serde_json::Map::new()
}

/// Puts a member into an object, in place of one with the same key: `Map::insert`.
#[verifier::external_body]
pub(crate) fn put(object: &mut serde_json::Map<String, Value>, key: String, value: Value)
    ensures
        members_of(*final(object)) == members_of(*old(object)).insert(key@, json_of(value)),
{
    object.insert(key, value);
}

/// The object with these members: `Value::Object`.
#[verifier::external_body]
pub(crate) fn object_value(members: serde_json::Map<String, Value>) -> (value: Value)
    ensures
        json_of(value) == Json::Object(members_of(members)),
{
    Value::Object(members)
}

/// The array with these elements: `Value::Array`.
#[verifier::external_body]
pub(crate) fn array_value(values: Vec<Value>) -> (value: Value)
    ensures
        json_of(value) == Json::List(jsons_of(values@)),
{
    Value::Array(values)
}

/// The string with this text: `Value::String`.
#[verifier::external_body]
pub(crate) fn string_value(text: String) -> (value: Value)
    ensures
        json_of(value) == Json::Text(text@),
{
    Value::String(text)
}

/// The truth value: `Value::Bool`.
#[verifier::external_body]
pub(crate) fn bool_value(b: bool) -> (value: Value)
    ensures
        json_of(value) == Json::Bool(b),
{
    Value::Bool(b)
}

/// The integer: the `From<u64>` of `Value`.
#[verifier::external_body]
pub(crate) fn integer_value(n: u64) -> (value: Value)
    ensures
        json_of(value) == Json::Num(Numeral::Integer(n as int)),
{
    Value::from(n)
}

/// No value: `Value::Null`.
#[verifier::external_body]
pub(crate) fn null_value() -> (value: Value)
    ensures
        json_of(value) == Json::Null,
{
    Value::Null
}

/// The compact text of a document: `Display` of `Value`.
#[verifier::external_body]
pub(crate) fn compact(value: &Value) -> (text: String)
    ensures
        text@ == compact_text(json_of(*value)),
{
    value.to_string()
}

/// The elements of the array under `key`.
pub fn list_field<'a>(value: &'a Value, key: &str) -> (found: Option<&'a Vec<Value>>)
    ensures
        match found {
            Some(list) => list_under(json_of(*value), key@) == Some(jsons_of(list@)),
            None => list_under(json_of(*value), key@) is None,
        },
{
    match field(value, key) {
        Some(inner) => items(inner),
        None => None,
    }
}

/// The text of the string under `key`.
pub fn text_field<'a>(value: &'a Value, key: &str) -> (found: Option<&'a str>)
    ensures
        match found {
            Some(text) => text_under(json_of(*value), key@) == Some(text@),
            None => text_under(json_of(*value), key@) is None,
        },
{
    match field(value, key) {
        Some(inner) => string_of(inner),
        None => None,
    }
}

/// The number under `key`, as a double.
pub fn number_field(value: &Value, key: &str) -> (found: Option<Double>)
    ensures
        match found {
            Some(number) => number_under(json_of(*value), key@) == Some(number@),
            None => number_under(json_of(*value), key@) is None,
        },
{
    match field(value, key) {
        Some(inner) => Double::from_value(inner),
        None => None,
    }
}

}
