//! Typed access to what a values map holds.

use crate::error::{
    error_detail, invalid_value, invalid_value_text, missing_required, ValuesError,
};
use crate::json::{decode, json_of_found, lookup, map_entries, Json, ValuesMap};
use serde_json::Value;
use vstd::prelude::*;

verus! {

/// Settles a lookup that was followed by an attempt to read the value found.
///
/// `decoded` is `None` if the key held nothing, `Some(Ok(_))` if the value was
/// read, and `Some(Err(detail))` if it could not be read, with the decoder's
/// account. A key that holds nothing is no failure.
pub fn typed_outcome<T>(
    key: &str,
    decoded: Option<Result<T, String>>,
) -> (r: Result<Option<T>, ValuesError>)
    ensures
        match decoded {
            None => r == Ok::<Option<T>, ValuesError>(None),
            Some(Ok(typed)) => r == Ok::<Option<T>, ValuesError>(Some(typed)),
            Some(Err(detail)) => r matches Err(e) && e.metadata_text() == Some(
                invalid_value_text(key@, detail@),
            ),
        },
{
    match decoded {
        None => Ok(None),
        Some(Ok(typed)) => Ok(Some(typed)),
        Some(Err(detail)) => Err(invalid_value(key, detail.as_str())),
    }
}

/// Settles a typed lookup of a key that must be present: a key that held
/// nothing is a failure that names the key.
pub fn required_outcome<T>(key: &str, found: Option<T>) -> (r: Result<T, ValuesError>)
    ensures
        match found {
            Some(typed) => r == Ok::<T, ValuesError>(typed),
            None => r matches Err(e) && e.is_missing_required(key@),
        },
{
    match found {
        Some(typed) => Ok(typed),
        None => Err(missing_required(key)),
    }
}

/// Typed access to the values of a string-keyed map.
pub trait MetadataExt {
    /// The entries of the map: its keys, each with what its value holds.
    spec fn entries(&self) -> Map<Seq<char>, Json>;

    /// Returns the value stored under `key`, if there is one.
    fn get_value(&self, key: &str) -> (found: Option<&Value>)
        ensures
            json_of_found(found) == self.entries().get(key@),
    ;

    /// Returns the value stored under `key` read as a `T`, or `None` if the
    /// key holds nothing. Fails if the value cannot be read as a `T`; the
    /// error names the key.
    fn get_typed<'a, T: serde::Deserialize<'a>>(
        &'a self,
        key: &str,
    ) -> (r: Result<Option<T>, ValuesError>)
        ensures
            match r {
                Ok(None) => !self.entries().contains_key(key@),
                Ok(Some(_)) => self.entries().contains_key(key@),
                Err(e) => self.entries().contains_key(key@) && e.is_invalid_value_for(key@),
            },
    {
        let decoded = match self.get_value(key) {
            None => None,
            Some(value) => match decode::<T>(value) {
                Ok(typed) => Some(Ok(typed)),
                Err(err) => Some(Err(error_detail(&err))),
            },
        };
        typed_outcome(key, decoded)
    }

    /// Returns the value stored under `key` read as a `T`. Fails if the key
    /// holds nothing, and if the value cannot be read as a `T`; either error
    /// names the key.
    fn require_typed<'a, T: serde::Deserialize<'a>>(
        &'a self,
        key: &str,
    ) -> (r: Result<T, ValuesError>)
        ensures
            match r {
                Ok(_) => self.entries().contains_key(key@),
                Err(e) => if self.entries().contains_key(key@) {
                    e.is_invalid_value_for(key@)
                } else {
                    e.is_missing_required(key@)
                },
            },
    {
        match self.get_typed::<T>(key) {
            Ok(found) => required_outcome(key, found),
            Err(e) => Err(e),
        }
    }
}

impl MetadataExt for ValuesMap {
    open spec fn entries(&self) -> Map<Seq<char>, Json> {
        map_entries(*self)
    }

    fn get_value(&self, key: &str) -> (found: Option<&Value>) {
        lookup(self, key)
    }
}

} // verus!
