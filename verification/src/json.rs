//! The JSON values and the JSON encoder, which come from `serde_json`.
//!
//! A `serde_json::Value` is carried through the library unopened. What the
//! library needs to know of the encoder is stated here and taken on trust.

use serde_json::Value;
use vstd::prelude::*;

verus! {

/// A JSON value. The library stores and copies such values and never looks
/// inside one.
#[verifier::external_type_specification]
#[verifier::external_body]
pub struct ExValue(serde_json::Value);

/// The error of the JSON encoder.
#[verifier::external_type_specification]
#[verifier::external_body]
pub struct ExJsonError(serde_json::Error);

/// A JSON object under construction: `serde_json::Map`.
#[verifier::external_type_specification]
#[verifier::external_body]
#[verifier::reject_recursive_types(K)]
#[verifier::reject_recursive_types(V)]
pub struct ExJsonObject<K, V>(serde_json::Map<K, V>);

/// The JSON string value with the given text.
pub uninterp spec fn json_string(text: Seq<char>) -> Value;

/// The members of a JSON object, by key.
pub uninterp spec fn object_fields(object: serde_json::Map<String, Value>) -> Map<Seq<char>, Value>;

/// The mapping without fields.
pub open spec fn no_fields() -> Map<Seq<char>, Value> {
    Map::empty()
}

/// The compact JSON text of the object with the given members, or `None`
/// where the encoder refuses them.
pub uninterp spec fn json_text(fields: Map<Seq<char>, Value>) -> Option<Seq<char>>;

/// `Value::clone`: the copy is equal to the value it was made from.
#[verifier::external_body]
pub(crate) fn clone_value(value: &Value) -> (copy: Value)
    ensures
        copy == *value,
{
    value.clone()
}

/// `Value::from` on a `String`: the JSON string value with that text.
#[verifier::external_body]
pub(crate) fn string_value(text: String) -> (value: Value)
    ensures
        value == json_string(text@),
{
    Value::from(text)
}

/// `serde_json::Map::new`: an object without members.
#[verifier::external_body]
pub(crate) fn new_object() -> (fresh: serde_json::Map<String, Value>)
    ensures
        object_fields(fresh) == no_fields(),
{
    serde_json::Map::new()
}

/// `serde_json::Map::insert`: the object gains the member, in place of any
/// member that had the same key; that member's value is handed back.
#[verifier::external_body]
pub(crate) fn object_insert(
    object: &mut serde_json::Map<String, Value>,
    key: String,
    value: Value,
) -> (previous: Option<Value>)
    ensures
        object_fields(*final(object)) == object_fields(*old(object)).insert(key@, value),
        previous == (if object_fields(*old(object)).contains_key(key@) {
            Some(object_fields(*old(object))[key@])
        } else {
            None
        }),
{
    object.insert(key, value)
}

/// `serde_json::to_string` on `Value::Object`: the text depends on the
/// object's members alone, and so does whether the encoder gives one. The
/// object keeps its members in the order of their keys, so the order in which
/// they were inserted leaves no trace in the text.
#[verifier::external_body]
pub(crate) fn encode_object(object: serde_json::Map<String, Value>) -> (encoded: Result<
    String,
    serde_json::Error,
>)
    ensures
        match encoded {
            Ok(text) => json_text(object_fields(object)) == Some(text@),
            Err(_) => json_text(object_fields(object)).is_none(),
        },
{
    serde_json::to_string(&Value::Object(object))
}

} // verus!
