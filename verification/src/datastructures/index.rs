//! Hash indexes from a key to the place of its record, kept in a
//! `DashMap`. The stores of this library own their index and change it
//! through exclusive access only.

use dashmap::DashMap;
use vstd::prelude::*;

verus! {

/// Declares `dashmap::DashMap` to the verifier, which sees nothing inside
/// a value of it: what an index holds is named below, and the functions
/// after that say what each call does to it.
#[verifier::external_type_specification]
#[verifier::external_body]
#[verifier::reject_recursive_types(K)]
#[verifier::reject_recursive_types(V)]
#[verifier::reject_recursive_types(S)]
pub struct ExDashMap<K, V, S>(dashmap::DashMap<K, V, S>);

/// What an index of symbols holds: for each text that is a key, its place.
pub uninterp spec fn symbol_places(index: DashMap<String, usize>) -> Map<Seq<char>, usize>;

/// What an index of identities holds: for each number that is a key, its place.
pub uninterp spec fn id_places(index: DashMap<u128, usize>) -> Map<u128, usize>;

/// Calls `DashMap::new`, which creates a map that holds nothing.
#[verifier::external_body]
pub(crate) fn new_symbol_index() -> (r: DashMap<String, usize>)
    ensures
        symbol_places(r).dom() == Set::<Seq<char>>::empty(),
{
    DashMap::new()
}

/// Calls `DashMap::insert`, which sets the value of a key, whether or not
/// the map held the key.
#[verifier::external_body]
pub(crate) fn set_symbol_place(index: &mut DashMap<String, usize>, key: String, place: usize)
    ensures
        symbol_places(*final(index)) == symbol_places(*old(index)).insert(key@, place),
{
    index.insert(key, place);
}

/// Calls `DashMap::get`, which finds the value of a key that the map
/// holds, and hands back a copy of the value.
#[verifier::external_body]
pub(crate) fn symbol_place(index: &DashMap<String, usize>, key: &str) -> (r: Option<usize>)
    ensures
        r == if symbol_places(*index).dom().contains(key@) {
            Some(symbol_places(*index)[key@])
        } else {
            None
        },
{
    index.get(key).map(|entry| *entry)
}

/// Calls `DashMap::remove`, which takes a key out of the map, if the map
/// holds it.
#[verifier::external_body]
pub(crate) fn drop_symbol_place(index: &mut DashMap<String, usize>, key: &str)
    ensures
        symbol_places(*final(index)) == symbol_places(*old(index)).remove(key@),
{
    index.remove(key);
}

/// Calls `DashMap::new`, which creates a map that holds nothing.
#[verifier::external_body]
pub(crate) fn new_id_index() -> (r: DashMap<u128, usize>)
    ensures
        id_places(r).dom() == Set::<u128>::empty(),
{
    DashMap::new()
}

/// Calls `DashMap::insert`, which sets the value of a key, whether or not
/// the map held the key.
#[verifier::external_body]
pub(crate) fn set_id_place(index: &mut DashMap<u128, usize>, key: u128, place: usize)
    ensures
        id_places(*final(index)) == id_places(*old(index)).insert(key, place),
{
    index.insert(key, place);
}

/// Calls `DashMap::get`, which finds the value of a key that the map
/// holds, and hands back a copy of the value.
#[verifier::external_body]
pub(crate) fn id_place(index: &DashMap<u128, usize>, key: u128) -> (r: Option<usize>)
    ensures
        r == if id_places(*index).dom().contains(key) {
            Some(id_places(*index)[key])
        } else {
            None
        },
{
    index.get(&key).map(|entry| *entry)
}

/// Calls `DashMap::remove`, which takes a key out of the map, if the map
/// holds it.
#[verifier::external_body]
pub(crate) fn drop_id_place(index: &mut DashMap<u128, usize>, key: u128)
    ensures
        id_places(*final(index)) == id_places(*old(index)).remove(key),
{
    index.remove(&key);
}

} // verus!
