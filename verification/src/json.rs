//! The data model that every contract of this crate is written over, and the
//! contracts assumed of the `serde_json` items that the crate calls.
//!
//! A dynamically-typed value is a `serde_json::Value`; a values map is a
//! `serde_json::Map<String, serde_json::Value>`. Both are opaque to the
//! verifier. What they hold is given by [`json_of`] and [`map_entries`], and
//! the items marked as assumed below are the only places where those two are
//! tied to running code.

use serde_json::Value;
use vstd::prelude::*;

verus! {

/// `serde_json::Value`, carried through verified code as an opaque value.
/// Nothing is assumed of it here; what it holds is [`json_of`].
#[verifier::external_type_specification]
#[verifier::external_body]
pub struct ExValue(serde_json::Value);

/// `serde_json::Number`, the payload of a JSON number. It only appears inside
/// [`Json::Number`]; nothing is assumed of it.
#[verifier::external_type_specification]
#[verifier::external_body]
pub struct ExNumber(serde_json::Number);

/// `serde_json::Error`, as returned by `serde_json::to_value` and by
/// deserializing from a `&serde_json::Value`. Nothing is assumed of it.
#[verifier::external_type_specification]
#[verifier::external_body]
pub struct ExError(serde_json::Error);

/// `serde_json::Map<K, V>`, carried as an opaque value. What a
/// `Map<String, Value>` holds is [`map_entries`].
#[verifier::external_type_specification]
#[verifier::external_body]
#[verifier::reject_recursive_types(K)]
#[verifier::reject_recursive_types(V)]
pub struct ExMap<K, V>(serde_json::Map<K, V>);

/// A string-keyed map with dynamically-typed values.
pub type ValuesMap = serde_json::Map<String, Value>;

/// What a dynamically-typed value holds: one variant for each variant of
/// `serde_json::Value`, with strings, arrays and objects taken by their
/// mathematical content.
pub enum Json {
    Null,
    Bool(bool),
    Number(serde_json::Number),
    String(Seq<char>),
    Array(Seq<Json>),
    Object(Map<Seq<char>, Json>),
}

/// What `value` holds. Assumed, not defined: the contracts below on
/// `Value::from` and on the map's methods are what is known of it.
pub uninterp spec fn json_of(value: serde_json::Value) -> Json;

/// The entries of `map`: its keys, each with what its value holds. The order
/// in which the map keeps its entries is not part of this.
pub uninterp spec fn map_entries(
    map: serde_json::Map<String, serde_json::Value>,
) -> Map<Seq<char>, Json>;

/// The map without entries.
pub open spec fn no_entries() -> Map<Seq<char>, Json> {
    Map::empty()
}

/// What an optional owned value holds.
pub open spec fn json_of_owned(value: Option<Value>) -> Option<Json> {
    match value {
        Some(v) => Some(json_of(v)),
        None => None,
    }
}

/// What an optional borrowed value holds.
pub open spec fn json_of_found(value: Option<&Value>) -> Option<Json> {
    match value {
        Some(v) => Some(json_of(*v)),
        None => None,
    }
}

/// The contents of a sequence of strings.
pub open spec fn texts(items: Seq<String>) -> Seq<Seq<char>> {
    items.map_values(|s: String| s@)
}

/// The JSON array whose elements are the given strings, in order.
pub open spec fn string_array_json(items: Seq<Seq<char>>) -> Json {
    Json::Array(items.map_values(|s: Seq<char>| Json::String(s)))
}

/// Assumed of `serde_json::Map::<String, Value>::new`: the new map has no
/// entries.
pub assume_specification[ serde_json::Map::<String, serde_json::Value>::new ]() -> (
    fresh: serde_json::Map<String, serde_json::Value>
)
    ensures
        map_entries(fresh) == no_entries(),
;

/// Assumed of `serde_json::Map::<String, Value>::insert`: afterwards the key
/// holds the given value and every other key holds what it held before; the
/// result is what the key held before, if it held anything.
pub assume_specification[ serde_json::Map::<String, serde_json::Value>::insert ](
    target: &mut serde_json::Map<String, serde_json::Value>,
    k: String,
    v: serde_json::Value,
) -> (previous: Option<serde_json::Value>)
    ensures
        map_entries(*final(target)) == map_entries(*old(target)).insert(k@, json_of(v)),
        json_of_owned(previous) == map_entries(*old(target)).get(k@),
;

/// Assumed of `<serde_json::Value as From<String>>::from`: the result is the
/// JSON string with the given contents.
pub assume_specification[ <serde_json::Value as From<String>>::from ](f: String) -> (
    made: serde_json::Value
)
    ensures
        json_of(made) == Json::String(f@),
;

/// Assumed of `serde_json::to_value`: nothing. Whether it succeeds, and with
/// what value, is decided by the `Serialize` impl of `T`.
pub assume_specification<T>[ serde_json::to_value::<T> ](value: T) -> (
    outcome: Result<serde_json::Value, serde_json::Error>
) where T: serde::Serialize
;

/// Calls `serde_json::Map::get` with a `&str` key. Assumed: the result is the
/// value that the map holds under that key, and `None` exactly when it holds
/// none.
#[verifier::external_body]
pub(crate) fn lookup<'a>(map: &'a ValuesMap, key: &str) -> (found: Option<&'a Value>)
    ensures
        json_of_found(found) == map_entries(*map).get(key@),
{
    map.get(key)
}

/// Calls `<serde_json::Value as From<Vec<String>>>::from`. Assumed: the result
/// is the JSON array that holds one JSON string for each element, in order.
#[verifier::external_body]
pub(crate) fn string_array_value(items: Vec<String>) -> (made: Value)
    ensures
        json_of(made) == string_array_json(texts(items@)),
{
    Value::from(items)
}

/// Calls `serde::Deserialize::deserialize` of `T` with `value` as the
/// deserializer. Nothing is assumed of the result: the impl of `T` decides it.
#[verifier::external_body]
pub(crate) fn decode<'a, T: serde::Deserialize<'a>>(
    value: &'a Value,
) -> (outcome: Result<T, serde_json::Error>) {
    T::deserialize(value)
}

} // verus!
