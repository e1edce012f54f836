//! The ordered mapping from column name to property descriptor.
//!
//! The mapping is a `linear_map::LinearMap`, which keeps its entries in a
//! vector and which the verifier does not look into. Its contents are
//! modelled as the sequence of those entries: the order of the sequence is
//! the order in which the mapping is walked. The functions that reach into
//! the mapping are believed, not proved: each says which method of
//! `LinearMap` stands behind it.

use crate::property_item::PropertyItem;
use linear_map::LinearMap;
use vstd::prelude::*;

verus! {

/// A column name with the descriptor stored under it.
pub type Entry = (Seq<char>, PropertyItem);

/// `linear_map::LinearMap`, taken as an opaque value.
#[verifier::external_type_specification]
#[verifier::external_body]
#[verifier::reject_recursive_types(K)]
#[verifier::reject_recursive_types(V)]
pub struct ExLinearMap<K, V>(linear_map::LinearMap<K, V>);

/// The entries of a mapping, in the order of its underlying vector.
pub uninterp spec fn map_entries(map: LinearMap<String, PropertyItem>) -> Seq<Entry>;

/// The names under which the entries stand, in order.
pub open spec fn entry_names(entries: Seq<Entry>) -> Seq<Seq<char>> {
    entries.map_values(|entry: Entry| entry.0)
}

/// The entries after `item` is stored under `name`: the first entry of that
/// name keeps its place and takes the new item; without such an entry, a new
/// one is added at the end.
pub open spec fn with_entry(entries: Seq<Entry>, name: Seq<char>, item: PropertyItem) -> Seq<
    Entry,
> {
    match entry_names(entries).index_of_first(name) {
        Some(index) => entries.update(index, (name, item)),
        None => entries.push((name, item)),
    }
}

/// The entries of a list of owned pairs.
pub open spec fn entry_views(entries: Seq<(String, PropertyItem)>) -> Seq<Entry> {
    entries.map_values(|entry: (String, PropertyItem)| (entry.0@, entry.1))
}

/// `LinearMap::new`: a mapping without entries.
#[verifier::external_body]
pub(crate) fn empty_mapping() -> (map: LinearMap<String, PropertyItem>)
    ensures
        map_entries(map) == Seq::<Entry>::empty(),
{
    LinearMap::new()
}

/// `LinearMap::insert`: searches the vector from the front for a key equal to
/// `name`; replaces the value of the entry found, leaving its key and place
/// as they are, or pushes a new entry at the end.
#[verifier::external_body]
pub(crate) fn insert_entry(
    map: &mut LinearMap<String, PropertyItem>,
    name: String,
    item: PropertyItem,
)
    ensures
        map_entries(*final(map)) == with_entry(map_entries(*old(map)), name@, item),
{
    map.insert(name, item);
}

/// `LinearMap::iter`: walks the vector from the front. Each entry is handed
/// out as a copy of its key and of its value.
#[verifier::external_body]
pub(crate) fn entries_of(map: &LinearMap<String, PropertyItem>) -> (entries: Vec<
    (String, PropertyItem),
>)
    ensures
        entry_views(entries@) == map_entries(*map),
{
    map.iter().map(|(name, item)| (name.clone(), *item)).collect()
}

/// Storing an item under a name adds the name at the end if it is new, and
/// leaves the names as they are if it is not.
pub proof fn with_entry_names(entries: Seq<Entry>, name: Seq<char>, item: PropertyItem)
    ensures
        entry_names(entries).contains(name) ==> entry_names(with_entry(entries, name, item))
            == entry_names(entries),
        !entry_names(entries).contains(name) ==> entry_names(with_entry(entries, name, item))
            == entry_names(entries).push(name),
{
    let names = entry_names(entries);
    names.index_of_first_ensures(name);
}

/// After an item is stored under a name, the mapping holds it there.
pub proof fn with_entry_holds_item(entries: Seq<Entry>, name: Seq<char>, item: PropertyItem)
    ensures
        with_entry(entries, name, item).contains((name, item)),
{
    let names = entry_names(entries);
    names.index_of_first_ensures(name);
    match names.index_of_first(name) {
        Some(index) => {
            assert(entries.update(index, (name, item))[index] == (name, item));
        },
        None => {
            assert(entries.push((name, item))[entries.len() as int] == (name, item));
        },
    }
}

/// Storing an item under a name leaves the entries of other names alone.
pub proof fn with_entry_keeps_others(
    entries: Seq<Entry>,
    name: Seq<char>,
    item: PropertyItem,
    other: Entry,
)
    requires
        entries.contains(other),
        other.0 != name,
    ensures
        with_entry(entries, name, item).contains(other),
{
    let names = entry_names(entries);
    names.index_of_first_ensures(name);
    let at = choose|at: int| 0 <= at < entries.len() && entries[at] == other;
    match names.index_of_first(name) {
        Some(index) => {
            assert(entries.update(index, (name, item))[at] == other);
        },
        None => {
            assert(entries.push((name, item))[at] == other);
        },
    }
}

} // verus!
