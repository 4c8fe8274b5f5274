//! JSON documents as trees, and the ways into the values of `serde_json`.

use vstd::prelude::*;

verus! {

/// What a JSON value holds. A number is `Count` where it is a whole number that
/// a `u64` can represent.
pub enum Json {
    Null,
    Bool(bool),
    Count(u64),
    OtherNumber,
    Text(Seq<char>),
    List(Seq<Json>),
    Object(Map<Seq<char>, Json>),
}

/// `serde_json::Value`, the outside crate's JSON value.
#[verifier::external_type_specification]
#[verifier::external_body]
pub struct ExValue(serde_json::Value);

/// `serde_json::Error`, what the outside crate reports of a text that is not JSON.
#[verifier::external_type_specification]
#[verifier::external_body]
pub struct ExError(serde_json::Error);

/// What a `serde_json::Value` holds.
pub uninterp spec fn contents(value: serde_json::Value) -> Json;

/// The document that `serde_json::from_slice` reads from these bytes; `None`
/// where it reports an error.
pub uninterp spec fn document(bytes: Seq<u8>) -> Option<Json>;

/// `serde_json::from_slice`, asked for a `serde_json::Value`: it gives the document
/// that the bytes spell, and an error where they spell none. The grammar is the
/// outside crate's, so which bytes spell which document has only a name here.
#[verifier::external_body]
pub(crate) fn parse(bytes: &[u8]) -> (parsed: Result<serde_json::Value, serde_json::Error>)
    ensures
        match parsed {
            Ok(value) => document(bytes@) == Some(contents(value)),
            Err(_) => document(bytes@) is None,
        },
{
    serde_json::from_slice(bytes)
}

/// `serde_json::Value::get`, asked for a key: it gives the value that an object
/// holds under the key, and nothing for a missing key or for any other value.
#[verifier::external_body]
pub(crate) fn member<'a>(value: &'a serde_json::Value, key: &str) -> (found: Option<
    &'a serde_json::Value,
>)
    ensures
        match (contents(*value), found) {
            (Json::Object(members), Some(held)) => members.contains_key(key@) && contents(*held)
                == members[key@],
            (Json::Object(members), None) => !members.contains_key(key@),
            (_, held) => held is None,
        },
{
    value.get(key)
}

/// `serde_json::Value::as_str`: the text, where the value is one.
pub assume_specification[ serde_json::Value::as_str ](value: &serde_json::Value) -> (found: Option<
    &str,
>)
    ensures
        match (contents(*value), found) {
            (Json::Text(held), Some(s)) => s@ == held,
            (Json::Text(_), None) => false,
            (_, s) => s is None,
        },
;

/// `serde_json::Value::as_u64`: the number, where the value is one that a `u64`
/// can represent.
pub assume_specification[ serde_json::Value::as_u64 ](value: &serde_json::Value) -> (number: Option<
    u64,
>)
    ensures
        number == match contents(*value) {
            Json::Count(n) => Some(n),
            _ => None,
        },
;

/// `serde_json::Value::as_array`: the items in order, where the value is an array.
pub assume_specification[ serde_json::Value::as_array ](value: &serde_json::Value) -> (items: Option<
    &Vec<serde_json::Value>,
>)
    ensures
        match (contents(*value), items) {
            (Json::List(held), Some(v)) => v@.map_values(|item: serde_json::Value| contents(item))
                == held,
            (Json::List(_), None) => false,
            (_, v) => v is None,
        },
;

/// `serde_json::Value::is_null`: whether the value is `null`.
pub assume_specification[ serde_json::Value::is_null ](value: &serde_json::Value) -> (null: bool)
    ensures
        null == (contents(*value) is Null),
;

} // verus!
