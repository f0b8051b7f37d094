//! A builder that fills a values map one entry at a time.

use crate::error::ValuesError;
use crate::json::{
    json_of, map_entries, no_entries, string_array_json, string_array_value, texts, Json,
    ValuesMap,
};
use serde_json::Value;
use vstd::prelude::*;
use vstd::string::*;

verus! {

/// Assists in building a [`ValuesMap`].
///
/// The builder owns one map. Each of its chained operations writes at most
/// one entry; [`ValuesMapBuilder::build`] and [`ValuesMapBuilder::take`] hand
/// the map out.
pub struct ValuesMapBuilder(ValuesMap);

impl View for ValuesMapBuilder {
    type V = Map<Seq<char>, Json>;

    /// The entries gathered so far.
    closed spec fn view(&self) -> Map<Seq<char>, Json> {
        map_entries(self.0)
    }
}

/// The contents of a sequence of string slices.
pub open spec fn slice_texts(items: Seq<&str>) -> Seq<Seq<char>> {
    items.map_values(|s: &str| s@)
}

/// The contents of an optional string slice.
pub open spec fn option_text(value: Option<&str>) -> Option<Seq<char>> {
    match value {
        Some(v) => Some(v@),
        None => None,
    }
}

/// The entries after `value` is written under `key`: the key holds the value,
/// every other key holds what it held.
pub open spec fn after_entry(
    entries: Map<Seq<char>, Json>,
    key: Seq<char>,
    value: Json,
) -> Map<Seq<char>, Json> {
    entries.insert(key, value)
}

/// The entries after the string `value` is written under `key`.
pub open spec fn after_string(
    entries: Map<Seq<char>, Json>,
    key: Seq<char>,
    value: Seq<char>,
) -> Map<Seq<char>, Json> {
    after_entry(entries, key, Json::String(value))
}

/// The entries after an optional string is written under `key`: as after
/// [`after_string`] if there is a string, unchanged if there is none.
pub open spec fn after_string_option(
    entries: Map<Seq<char>, Json>,
    key: Seq<char>,
    value: Option<Seq<char>>,
) -> Map<Seq<char>, Json> {
    match value {
        Some(v) => after_string(entries, key, v),
        None => entries,
    }
}

/// The entries after the array of the strings `items` is written under `key`.
pub open spec fn after_string_array(
    entries: Map<Seq<char>, Json>,
    key: Seq<char>,
    items: Seq<Seq<char>>,
) -> Map<Seq<char>, Json> {
    after_entry(entries, key, string_array_json(items))
}

/// What taking the map does to the entries of a builder: the first part is
/// handed out, the second is what the builder is left with.
pub open spec fn taken(entries: Map<Seq<char>, Json>) -> (
    Map<Seq<char>, Json>,
    Map<Seq<char>, Json>,
) {
    (entries, no_entries())
}

impl Default for ValuesMapBuilder {
    /// A builder without entries.
    fn default() -> (b: Self)
        ensures
            b@ == no_entries(),
    {
        ValuesMapBuilder(serde_json::Map::new())
    }
}

impl ValuesMapBuilder {
    /// Returns a new builder without entries.
    pub fn new() -> (b: Self)
        ensures
            b@ == no_entries(),
    {
        Self::default()
    }

    /// Writes `value` under `key` as a JSON string, in place of whatever the
    /// key held.
    pub fn string(&mut self, key: &str, value: &str) -> (b: &mut Self)
        ensures
            b@ == after_string(old(self)@, key@, value@),
            *final(self) == *final(b),
    {
        self.entry(key, Value::from(value.to_owned()))
    }

    /// Writes `value` under `key` as a JSON string if there is a value, and
    /// leaves the entries as they are if there is none: an entry that `key`
    /// already has then stays.
    pub fn string_option(&mut self, key: &str, value: Option<&str>) -> (b: &mut Self)
        ensures
            b@ == after_string_option(old(self)@, key@, option_text(value)),
            *final(self) == *final(b),
    {
        if let Some(v) = value {
            self.0.insert(key.to_owned(), Value::from(v.to_owned()));
        }
        self
    }

    /// Writes under `key` the JSON array of the given strings, in their
    /// order, in place of whatever the key held.
    pub fn string_array(&mut self, key: &str, items: &[&str]) -> (b: &mut Self)
        ensures
            b@ == after_string_array(old(self)@, key@, slice_texts(items@)),
            *final(self) == *final(b),
    {
        let mut owned: Vec<String> = Vec::new();
        let mut i: usize = 0;
        while i < items.len()
            invariant
                i <= items.len(),
                owned@.len() == i,
                forall|j: int| 0 <= j < i ==> (#[trigger] owned@[j])@ == items@[j]@,
            decreases items.len() - i,
        {
            owned.push(items[i].to_owned());
            i += 1;
        }
        assert(texts(owned@) =~= slice_texts(items@));
        self.entry(key, string_array_value(owned))
    }

    /// Writes `value` under `key`, in place of whatever the key held.
    pub fn entry(&mut self, key: &str, value: Value) -> (b: &mut Self)
        ensures
            b@ == after_entry(old(self)@, key@, json_of(value)),
            *final(self) == *final(b),
    {
        self.0.insert(key.to_owned(), value);
        self
    }

    /// Writes under `key` what serializing gave, or fails with the
    /// serializer's error and leaves every entry as it was.
    pub fn serialized(
        &mut self,
        key: &str,
        outcome: Result<Value, serde_json::Error>,
    ) -> (r: Result<&mut Self, ValuesError>)
        ensures
            match outcome {
                Ok(value) => r matches Ok(b) && b@ == after_entry(
                    old(self)@,
                    key@,
                    json_of(value),
                ) && *final(self) == *final(b),
                Err(err) => r matches Err(e) && e == ValuesError::SerializationError(err)
                    && *final(self) == *old(self),
            },
    {
        match outcome {
            Ok(value) => {
                self.0.insert(key.to_owned(), value);
                Ok(self)
            },
            Err(err) => Err(ValuesError::SerializationError(err)),
        }
    }

    /// Serializes `value` to a dynamically-typed value and writes it under
    /// `key`. Whether serializing succeeds is up to `T`; if it fails, no entry
    /// is written.
    pub fn serializable<T: serde::Serialize>(
        &mut self,
        key: &str,
        value: T,
    ) -> (r: Result<&mut Self, ValuesError>)
        ensures
            match r {
                Ok(b) => (exists|written: Json| b@ == after_entry(old(self)@, key@, written))
                    && *final(self) == *final(b),
                Err(e) => e is SerializationError && *final(self) == *old(self),
            },
    {
        self.serialized(key, serde_json::to_value(value))
    }

    /// Returns the built map.
    pub fn build(self) -> (built: ValuesMap)
        ensures
            map_entries(built) == self@,
    {
        self.0
    }

    /// Returns the built map and leaves the builder without entries, ready
    /// to be filled again.
    pub fn take(&mut self) -> (built: ValuesMap)
        ensures
            (map_entries(built), final(self)@) == taken(old(self)@),
    {
        let mut built = serde_json::Map::new();
        core::mem::swap(&mut self.0, &mut built);
        built
    }
}

} // verus!
