//! Laws that relate what is written into a builder to what a lookup in the
//! built map finds.
//!
//! They are stated over the entries of a builder or map, with the functions
//! that the contracts of [`crate::builder::ValuesMapBuilder`] and of
//! [`crate::metadata::MetadataExt`] use.

use crate::builder::{
    after_entry, after_string, after_string_array, after_string_option, taken,
};
use crate::json::{no_entries, string_array_json, Json};
use vstd::prelude::*;

verus! {

/// The entries after each of `writes`, a key and a value, has been written in
/// order on top of `start`.
pub open spec fn after_writes(
    start: Map<Seq<char>, Json>,
    writes: Seq<(Seq<char>, Json)>,
) -> Map<Seq<char>, Json>
    decreases writes.len(),
{
    if writes.len() == 0 {
        start
    } else {
        after_entry(after_writes(start, writes.drop_last()), writes.last().0, writes.last().1)
    }
}

/// A lookup of a key finds what was written under it, whatever the key held
/// before, and a write under one key changes what no other key holds.
pub proof fn lemma_entry_is_found(
    entries: Map<Seq<char>, Json>,
    key: Seq<char>,
    value: Json,
    other: Seq<char>,
)
    ensures
        after_entry(entries, key, value).get(key) == Some(value),
        other != key ==> after_entry(entries, key, value).get(other) == entries.get(other),
{
}

/// After a string is written under a key, a lookup of the key finds the JSON
/// string with the same contents.
pub proof fn lemma_string_is_found(entries: Map<Seq<char>, Json>, key: Seq<char>, value: Seq<char>)
    ensures
        after_string(entries, key, value).get(key) == Some(Json::String(value)),
{
}

/// After an array of strings is written under a key, a lookup of the key
/// finds a JSON array of as many elements, each the JSON string with the
/// contents of the string at its place.
pub proof fn lemma_string_array_is_found(
    entries: Map<Seq<char>, Json>,
    key: Seq<char>,
    items: Seq<Seq<char>>,
)
    ensures
        after_string_array(entries, key, items).get(key) == Some(string_array_json(items)),
        string_array_json(items) matches Json::Array(elements) && elements.len() == items.len()
            && forall|i: int| 0 <= i < items.len() ==> elements[i] == Json::String(items[i]),
{
}

/// Writing an optional string that is absent changes nothing, so a builder
/// without entries still has none; writing one that is present is the same
/// as writing that string.
pub proof fn lemma_string_option(
    entries: Map<Seq<char>, Json>,
    key: Seq<char>,
    value: Seq<char>,
)
    ensures
        after_string_option(entries, key, None) == entries,
        !after_string_option(no_entries(), key, None).contains_key(key),
        after_string_option(entries, key, Some(value)) == after_string(entries, key, value),
{
}

/// Taking the map hands out every entry and leaves a builder as a new one:
/// a second take right after the first hands out a map without entries, and
/// leaves the builder as the first did.
pub proof fn lemma_take_resets(entries: Map<Seq<char>, Json>)
    ensures
        taken(entries).0 == entries,
        taken(entries).1 == no_entries(),
        taken(taken(entries).1) == (no_entries(), no_entries()),
{
}

/// One more write is one more step of [`after_writes`].
pub proof fn lemma_one_more_write(
    start: Map<Seq<char>, Json>,
    writes: Seq<(Seq<char>, Json)>,
    key: Seq<char>,
    value: Json,
)
    ensures
        after_writes(start, writes.push((key, value))) == after_entry(
            after_writes(start, writes),
            key,
            value,
        ),
{
    assert(writes.push((key, value)).drop_last() =~= writes);
}

/// The last write under a key wins: if no later write is under the key of the
/// write at `i`, a lookup of that key finds the value of the write at `i`.
pub proof fn lemma_last_write_wins(
    start: Map<Seq<char>, Json>,
    writes: Seq<(Seq<char>, Json)>,
    i: int,
)
    requires
        0 <= i < writes.len(),
        forall|j: int| i < j < writes.len() ==> writes[j].0 != writes[i].0,
    ensures
        after_writes(start, writes).get(writes[i].0) == Some(writes[i].1),
    decreases writes.len(),
{
    if i < writes.len() - 1 {
        lemma_last_write_wins(start, writes.drop_last(), i);
    }
}

/// A key that no write is under holds what it held at the start.
pub proof fn lemma_unwritten_key_keeps(
    start: Map<Seq<char>, Json>,
    writes: Seq<(Seq<char>, Json)>,
    key: Seq<char>,
)
    requires
        forall|j: int| 0 <= j < writes.len() ==> writes[j].0 != key,
    ensures
        after_writes(start, writes).get(key) == start.get(key),
    decreases writes.len(),
{
    if writes.len() > 0 {
        lemma_unwritten_key_keeps(start, writes.drop_last(), key);
    }
}

/// A builder that started without entries holds exactly the keys that were
/// written: a key has an entry if and only if some write is under it.
pub proof fn lemma_exactly_the_written_keys(writes: Seq<(Seq<char>, Json)>, key: Seq<char>)
    ensures
        after_writes(no_entries(), writes).contains_key(key) <==> exists|j: int|
            0 <= j < writes.len() && writes[j].0 == key,
    decreases writes.len(),
{
    if writes.len() > 0 {
        let earlier = writes.drop_last();
        lemma_exactly_the_written_keys(earlier, key);
        if after_writes(no_entries(), writes).contains_key(key) {
            if writes.last().0 == key {
                assert(writes[writes.len() - 1].0 == key);
            } else {
                let j = choose|j: int| 0 <= j < earlier.len() && earlier[j].0 == key;
                assert(writes[j].0 == key);
            }
        }
        if exists|j: int| 0 <= j < writes.len() && writes[j].0 == key {
            let j = choose|j: int| 0 <= j < writes.len() && writes[j].0 == key;
            if j < writes.len() - 1 {
                assert(earlier[j].0 == key);
            }
        }
    }
}

} // verus!
