//! The JSON values that records carry and that responses are built into.
//!
//! `serde_json::Value` stays opaque here: payloads pass through untouched, and
//! the values this library makes itself are known by the name of the
//! conversion that made them.
use vstd::prelude::*;

verus! {

#[verifier::external_type_specification]
#[verifier::external_body]
pub struct ExJsonValue(serde_json::Value);

#[verifier::external_type_specification]
#[verifier::external_body]
#[verifier::reject_recursive_types(K)]
#[verifier::reject_recursive_types(V)]
pub struct ExJsonMap<K, V>(serde_json::Map<K, V>);

/// A JSON object with string keys.
pub type JsonObject = serde_json::Map<String, serde_json::Value>;

/// The key/value pairs that a JSON object holds.
pub uninterp spec fn object_entries(m: JsonObject) -> Map<Seq<char>, serde_json::Value>;

/// The JSON string made from the characters `s`.
pub uninterp spec fn json_text(s: Seq<char>) -> serde_json::Value;

/// The JSON value made from an optional string: a string, or null.
pub uninterp spec fn json_optional_text(s: Option<Seq<char>>) -> serde_json::Value;

/// The JSON number made from the integer `n`.
pub uninterp spec fn json_integer(n: i64) -> serde_json::Value;

/// The JSON value made from an optional value: the value itself, or null.
pub uninterp spec fn json_optional(v: Option<serde_json::Value>) -> serde_json::Value;

/// The JSON array of the values `items`, in order.
pub uninterp spec fn json_array(items: Seq<serde_json::Value>) -> serde_json::Value;

/// The optional string as characters.
pub open spec fn optional_chars(s: Option<String>) -> Option<Seq<char>> {
    match s {
        Some(t) => Some(t@),
        None => None,
    }
}

/// Relies on `serde_json::Map::new`: the map starts empty.
#[verifier::external_body]
pub(crate) fn new_object() -> (r: JsonObject)
    ensures
        object_entries(r).dom() == Set::<Seq<char>>::empty(),
{
    serde_json::Map::new()
}

/// Relies on `serde_json::Map::insert`: the key maps to the value afterwards,
/// every other entry is kept.
#[verifier::external_body]
pub(crate) fn put(m: &mut JsonObject, key: String, value: serde_json::Value)
    ensures
        object_entries(*final(m)) == object_entries(*old(m)).insert(key@, value),
{
    m.insert(key, value);
}

/// Relies on `From<String> for serde_json::Value`.
#[verifier::external_body]
pub(crate) fn text_value(s: String) -> (r: serde_json::Value)
    ensures
        r == json_text(s@),
{
    serde_json::Value::from(s)
}

/// Relies on `From<Option<String>> for serde_json::Value`.
#[verifier::external_body]
pub(crate) fn optional_text_value(s: Option<String>) -> (r: serde_json::Value)
    ensures
        r == json_optional_text(optional_chars(s)),
{
    serde_json::Value::from(s)
}

/// Relies on `From<i64> for serde_json::Value`.
#[verifier::external_body]
pub(crate) fn integer_value(n: i64) -> (r: serde_json::Value)
    ensures
        r == json_integer(n),
{
    serde_json::Value::from(n)
}

/// Relies on `From<Option<Value>> for serde_json::Value`: `Some(v)` becomes
/// `v` itself, `None` becomes null.
#[verifier::external_body]
pub(crate) fn optional_value(v: Option<serde_json::Value>) -> (r: serde_json::Value)
    ensures
        r == json_optional(v),
        v matches Some(x) ==> r == x,
{
    serde_json::Value::from(v)
}

/// Relies on `From<Vec<Value>> for serde_json::Value`: an array of the items.
#[verifier::external_body]
pub(crate) fn array_value(items: Vec<serde_json::Value>) -> (r: serde_json::Value)
    ensures
        r == json_array(items@),
{
    serde_json::Value::from(items)
}

} // verus!
