//! JSON values, as the settings and the answers of the hub hold them.
//!
//! The values are those of `serde_json`; each function here calls one of its
//! functions and states, without proof, what that does.

use serde_json::Value;
use vstd::prelude::*;

verus! {

#[verifier::external_type_specification]
#[verifier::external_body]
pub struct ExValue(Value);

/// The value is an object, that is, a map from names to values.
pub uninterp spec fn json_is_object(v: Value) -> bool;

/// The value that an object holds under a name. A value that is no object
/// holds none under any name.
pub uninterp spec fn json_member(v: Value, key: Seq<char>) -> Option<Value>;

/// The text that a value holds, if it is a text.
pub uninterp spec fn json_text_of(v: Value) -> Option<Seq<char>>;

/// The number that a value holds, if it is a whole number that fits 64 bits
/// without a sign.
pub uninterp spec fn json_number_of(v: Value) -> Option<u64>;

/// The items that a value holds, if it is a list.
pub uninterp spec fn json_items_of(v: Value) -> Option<Seq<Value>>;

/// The value that a text is read as, if it is JSON.
pub uninterp spec fn json_parsed(text: Seq<char>) -> Option<Value>;

/// A value written down as text, laid out for a reader; nothing where it
/// cannot be written.
pub uninterp spec fn json_written(v: Value) -> Option<Seq<char>>;

/// The view of a text that may be missing.
pub open spec fn text_view(text: Option<String>) -> Option<Seq<char>> {
    match text {
        Some(t) => Some(t@),
        None => None,
    }
}

/// The view of a list that may be missing.
pub open spec fn list_view(list: Option<Vec<Value>>) -> Option<Seq<Value>> {
    match list {
        Some(l) => Some(l@),
        None => None,
    }
}

/// Calls `serde_json::from_str` for a value; an error is handed on as its
/// message.
#[verifier::external_body]
pub(crate) fn json_parse(text: &str) -> (r: Result<Value, String>)
    ensures
        r matches Ok(value) ==> json_parsed(text@) == Some(value),
        r is Err ==> json_parsed(text@) is None,
{
    match serde_json::from_str::<Value>(text) {
        Ok(value) => Ok(value),
        Err(e) => Err(e.to_string()),
    }
}

/// An object without entries, made by `Map::new`.
#[verifier::external_body]
pub(crate) fn json_object() -> (v: Value)
    ensures
        json_is_object(v),
        forall|key: Seq<char>| (#[trigger] json_member(v, key)) is None,
{
    Value::Object(serde_json::Map::new())
}

/// A value that holds a text, made by `Value::from`.
#[verifier::external_body]
pub(crate) fn json_text_value(text: &str) -> (v: Value)
    ensures
        json_text_of(v) == Some(text@),
{
    Value::from(text)
}

/// Calls `Value::is_object`.
#[verifier::external_body]
pub(crate) fn json_holds_object(v: &Value) -> (r: bool)
    ensures
        r == json_is_object(*v),
{
    v.is_object()
}

/// Calls `Value::get` with a name, and copies what it finds: the value that
/// an object holds under the name. A value that is no object gives nothing.
#[verifier::external_body]
pub(crate) fn json_get(v: &Value, key: &str) -> (r: Option<Value>)
    ensures
        r == json_member(*v, key@),
        r is Some ==> json_is_object(*v),
{
    v.get(key).cloned()
}

/// Calls `Value::as_str`, and copies the text.
#[verifier::external_body]
pub(crate) fn json_text(v: &Value) -> (r: Option<String>)
    ensures
        text_view(r) == json_text_of(*v),
{
    v.as_str().map(|text| text.to_owned())
}

/// Calls `Value::as_u64`.
#[verifier::external_body]
pub(crate) fn json_number(v: &Value) -> (r: Option<u64>)
    ensures
        r == json_number_of(*v),
{
    v.as_u64()
}

/// Calls `Value::as_array`, and copies the items.
#[verifier::external_body]
pub(crate) fn json_items(v: &Value) -> (r: Option<Vec<Value>>)
    ensures
        list_view(r) == json_items_of(*v),
{
    v.as_array().map(|items| items.to_vec())
}

/// Calls `Map::insert` on the map of an object, which `Value::as_object_mut`
/// hands out: the object now holds the value under the name, and under every
/// other name what it held before.
#[verifier::external_body]
pub(crate) fn json_insert(v: &mut Value, key: &str, value: Value)
    requires
        json_is_object(*old(v)),
    ensures
        json_is_object(*final(v)),
        forall|k: Seq<char>|
            #[trigger] json_member(*final(v), k) == (if k == key@ {
                Some(value)
            } else {
                json_member(*old(v), k)
            }),
{
    if let Some(map) = v.as_object_mut() {
        map.insert(key.to_owned(), value);
    }
}

/// Calls `serde_json::to_string_pretty`; an error is handed on as its
/// message.
#[verifier::external_body]
pub(crate) fn json_pretty(v: &Value) -> (r: Result<String, String>)
    ensures
        r matches Ok(text) ==> json_written(*v) == Some(text@),
        r is Err ==> json_written(*v) is None,
{
    match serde_json::to_string_pretty(v) {
        Ok(text) => Ok(text),
        Err(e) => Err(e.to_string()),
    }
}

} // verus!
