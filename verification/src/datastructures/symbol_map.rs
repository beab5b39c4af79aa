//! A keyed store for per-symbol records: each symbol once, in the order in
//! which the symbols first came. The records stand in a list; a hash index
//! says where in the list the record of a symbol stands.

use crate::datastructures::index::{
    drop_symbol_place, new_symbol_index, set_symbol_place, symbol_place, symbol_places,
};
use dashmap::DashMap;
use vstd::prelude::*;

verus! {

pub open spec fn texts_view(keys: Seq<String>) -> Seq<Seq<char>> {
    Seq::new(keys.len(), |i: int| keys[i]@)
}

pub open spec fn distinct_texts(keys: Seq<Seq<char>>) -> bool {
    forall|i: int, j: int| 0 <= i < j < keys.len() ==> keys[i] != keys[j]
}

pub open spec fn holds_key(keys: Seq<Seq<char>>, key: Seq<char>) -> bool {
    exists|i: int| 0 <= i < keys.len() && #[trigger] keys[i] == key
}

pub open spec fn slot_of_key(keys: Seq<Seq<char>>, key: Seq<char>) -> int {
    choose|i: int| 0 <= i < keys.len() && #[trigger] keys[i] == key
}

/// In a list without repetition a key stands in one place only.
pub proof fn lemma_key_slot(keys: Seq<Seq<char>>, key: Seq<char>, i: int)
    requires
        distinct_texts(keys),
        0 <= i < keys.len(),
        keys[i] == key,
    ensures
        holds_key(keys, key),
        slot_of_key(keys, key) == i,
{
    let c = slot_of_key(keys, key);
    if c < i {
        assert(keys[c] != keys[i]);
    } else if i < c {
        assert(keys[i] != keys[c]);
    }
}

/// The keys of a store after `key` was set.
pub open spec fn keys_with(keys: Seq<Seq<char>>, key: Seq<char>) -> Seq<Seq<char>> {
    if holds_key(keys, key) {
        keys
    } else {
        keys.push(key)
    }
}

/// The records of a store after `key` was set to `value`.
pub open spec fn values_with<V>(keys: Seq<Seq<char>>, values: Seq<V>, key: Seq<char>, value: V) -> Seq<
    V,
> {
    if holds_key(keys, key) {
        values.update(slot_of_key(keys, key), value)
    } else {
        values.push(value)
    }
}

/// Whether two texts are the same, character by character.
pub fn same_text(a: &str, b: &str) -> (r: bool)
    ensures
        r == (a@ == b@),
{
    let left = a.to_string();
    let right = b.to_string();
    proof {
        broadcast use vstd::string::to_string_from_display_ensures_for_str;

    }
    left == right
}

struct Store<V> {
    keys: Vec<String>,
    values: Vec<V>,
    index: DashMap<String, usize>,
}

/// The index says of each key where it stands, and of nothing else.
spec fn index_agrees(keys: Seq<Seq<char>>, places: Map<Seq<char>, usize>) -> bool {
    &&& forall|i: int|
        0 <= i < keys.len() ==> places.dom().contains(#[trigger] keys[i]) && places[keys[i]] == i
    &&& forall|k: Seq<char>| #[trigger]
        places.dom().contains(k) ==> places[k] < keys.len() && keys[places[k] as int] == k
}

/// The index as it stands while the places behind a gap are put right:
/// it holds the keys and nothing else, says the truth of the first `done`
/// keys, and of every later key the place behind its own.
spec fn index_lags(keys: Seq<Seq<char>>, places: Map<Seq<char>, usize>, done: int) -> bool {
    &&& forall|i: int| 0 <= i < keys.len() ==> places.dom().contains(#[trigger] keys[i])
    &&& forall|i: int| 0 <= i < done && i < keys.len() ==> places[#[trigger] keys[i]] == i
    &&& forall|i: int| done <= i < keys.len() ==> places[#[trigger] keys[i]] == i + 1
    &&& forall|k: Seq<char>| #[trigger] places.dom().contains(k) ==> holds_key(keys, k)
}

spec fn store_sound<V>(store: Store<V>) -> bool {
    &&& store.keys@.len() == store.values@.len()
    &&& distinct_texts(texts_view(store.keys@))
    &&& index_agrees(texts_view(store.keys@), symbol_places(store.index))
}

pub struct SymbolMap<V> {
    store: Option<Store<V>>,
}

impl<V> SymbolMap<V> {
    #[verifier::type_invariant]
    spec fn sound(&self) -> bool {
        self.store matches Some(store) ==> store_sound(store)
    }

    /// The symbols, in the order in which they first came.
    pub closed spec fn keys_view(&self) -> Seq<Seq<char>> {
        match self.store {
            Some(store) => texts_view(store.keys@),
            None => Seq::empty(),
        }
    }

    /// The records, each at the place of its symbol.
    pub closed spec fn values_view(&self) -> Seq<V> {
        match self.store {
            Some(store) => store.values@,
            None => Seq::empty(),
        }
    }

    pub open spec fn spec_len(&self) -> nat {
        self.keys_view().len()
    }

    pub open spec fn contains(&self, key: Seq<char>) -> bool {
        holds_key(self.keys_view(), key)
    }

    /// The record of a symbol, where the store holds one.
    pub open spec fn value_of(&self, key: Seq<char>) -> Option<V> {
        if self.contains(key) {
            Some(self.values_view()[slot_of_key(self.keys_view(), key)])
        } else {
            None
        }
    }

    /// This store is `before` with the record of `key` replaced by `value`.
    pub open spec fn replaces(&self, before: &Self, key: Seq<char>, value: V) -> bool {
        &&& self.keys_view() == before.keys_view()
        &&& self.values_view() == before.values_view().update(
            slot_of_key(before.keys_view(), key),
            value,
        )
    }

    /// The store after `key` was taken out; the others keep their order.
    pub open spec fn is_removal_of(&self, before: &Self, key: Seq<char>) -> bool {
        if before.contains(key) {
            &&& self.keys_view() == before.keys_view().remove(slot_of_key(before.keys_view(), key))
            &&& self.values_view() == before.values_view().remove(
                slot_of_key(before.keys_view(), key),
            )
        } else {
            &&& self.keys_view() == before.keys_view()
            &&& self.values_view() == before.values_view()
        }
    }

    /// What holds of every store: as many records as symbols, and no symbol twice.
    pub open spec fn wf(&self) -> bool {
        &&& self.keys_view().len() == self.values_view().len()
        &&& distinct_texts(self.keys_view())
    }

    /// A store that holds nothing.
    pub fn new() -> (r: Self)
        ensures
            r.keys_view() == Seq::<Seq<char>>::empty(),
            r.values_view() == Seq::<V>::empty(),
            r.wf(),
    {
        SymbolMap { store: None }
    }

    /// How many symbols the store holds.
    pub fn len(&self) -> (r: usize)
        ensures
            r == self.spec_len(),
            self.wf(),
    {
        proof {
            use_type_invariant(self);
        }
        match &self.store {
            Some(store) => store.keys.len(),
            None => 0,
        }
    }

    /// The place of a symbol in the store.
    pub fn find(&self, key: &str) -> (r: Option<usize>)
        ensures
            self.wf(),
            r is Some <==> self.contains(key@),
            r matches Some(i) ==> i == slot_of_key(self.keys_view(), key@) && i < self.spec_len()
                && self.keys_view()[i as int] == key@,
    {
        proof {
            use_type_invariant(self);
        }
        match &self.store {
            Some(store) => {
                let found = symbol_place(&store.index, key);
                proof {
                    let keys = texts_view(store.keys@);
                    let places = symbol_places(store.index);
                    match found {
                        Some(i) => {
                            assert(places.dom().contains(key@));
                            lemma_key_slot(keys, key@, i as int);
                        },
                        None => {
                            assert forall|j: int| 0 <= j < keys.len() implies #[trigger] keys[j]
                                != key@ by {
                                assert(places.dom().contains(keys[j]));
                            }
                        },
                    }
                }
                found
            },
            None => None,
        }
    }

    /// The record of a symbol, where the store holds one.
    pub fn get(&self, key: &str) -> (r: Option<&V>)
        ensures
            self.wf(),
            match r {
                Some(v) => self.value_of(key@) == Some(*v),
                None => self.value_of(key@) is None,
            },
    {
        proof {
            use_type_invariant(self);
        }
        match self.find(key) {
            Some(i) => match &self.store {
                Some(store) => Some(&store.values[i]),
                None => None,
            },
            None => None,
        }
    }

    /// The symbol at a place.
    pub fn key_at(&self, i: usize) -> (r: &String)
        requires
            i < self.spec_len(),
        ensures
            r@ == self.keys_view()[i as int],
    {
        match &self.store {
            Some(store) => &store.keys[i],
            None => vstd::pervasive::unreached(),
        }
    }

    /// The record at a place.
    pub fn value_at(&self, i: usize) -> (r: &V)
        requires
            i < self.spec_len(),
        ensures
            self.wf(),
            *r == self.values_view()[i as int],
    {
        proof {
            use_type_invariant(self);
        }
        match &self.store {
            Some(store) => &store.values[i],
            None => vstd::pervasive::unreached(),
        }
    }

    /// Replaces the record at a place.
    pub fn set_value(&mut self, i: usize, value: V)
        requires
            i < old(self).spec_len(),
        ensures
            final(self).keys_view() == old(self).keys_view(),
            final(self).values_view() == old(self).values_view().update(i as int, value),
            final(self).wf(),
    {
        proof {
            use_type_invariant(&*self);
        }
        let mut taken: Option<Store<V>> = None;
        core::mem::swap(&mut taken, &mut self.store);
        match taken {
            Some(store) => {
                let Store { keys, mut values, index } = store;
                values.set(i, value);
                self.store = Some(Store { keys, values, index });
            },
            None => {},
        }
    }

    /// Sets the record of a symbol: in place where the store holds the
    /// symbol, at the end where it does not.
    pub fn insert(&mut self, key: String, value: V)
        ensures
            final(self).wf(),
            old(self).contains(key@) ==> final(self).keys_view() == old(self).keys_view()
                && final(self).values_view() == old(self).values_view().update(
                slot_of_key(old(self).keys_view(), key@),
                value,
            ),
            !old(self).contains(key@) ==> final(self).keys_view() == old(self).keys_view().push(
                key@,
            ) && final(self).values_view() == old(self).values_view().push(value),
            final(self).value_of(key@) == Some(value),
            forall|other: Seq<char>|
                other != key@ ==> #[trigger] final(self).value_of(other) == old(self).value_of(
                    other,
                ),
    {
        proof {
            use_type_invariant(&*self);
        }
        let slot = self.find(key.as_str());
        let ghost old_keys = self.keys_view();
        let ghost old_values = self.values_view();
        let mut taken: Option<Store<V>> = None;
        core::mem::swap(&mut taken, &mut self.store);
        let store = match taken {
            Some(store) => store,
            None => {
                let fresh = Store { keys: Vec::new(), values: Vec::new(), index: new_symbol_index() };
                assert(texts_view(fresh.keys@) =~= Seq::<Seq<char>>::empty());
                fresh
            },
        };
        let Store { mut keys, mut values, mut index } = store;
        assert(texts_view(keys@) == old_keys);
        match slot {
            Some(i) => {
                values.set(i, value);
                proof {
                    lemma_key_slot(old_keys, key@, i as int);
                    assert forall|other: Seq<char>| other != key@ implies (if holds_key(
                        old_keys,
                        other,
                    ) {
                        Some(values@[slot_of_key(old_keys, other)])
                    } else {
                        None::<V>
                    }) == (if holds_key(old_keys, other) {
                        Some(old_values[slot_of_key(old_keys, other)])
                    } else {
                        None::<V>
                    }) by {
                        if holds_key(old_keys, other) {
                            assert(slot_of_key(old_keys, other) != i);
                        }
                    }
                }
            },
            None => {
                let place = keys.len();
                let ghost old_places = symbol_places(index);
                set_symbol_place(&mut index, key.clone(), place);
                keys.push(key);
                values.push(value);
                proof {
                    let new_keys = texts_view(keys@);
                    let places = symbol_places(index);
                    assert(new_keys =~= old_keys.push(key@));
                    assert forall|a: int, b: int| 0 <= a < b < new_keys.len() implies new_keys[a]
                        != new_keys[b] by {
                        if b == old_keys.len() {
                            assert(old_keys[a] != key@);
                        }
                    }
                    assert forall|i: int| 0 <= i < new_keys.len() implies places.dom().contains(
                        #[trigger] new_keys[i],
                    ) && places[new_keys[i]] == i by {
                        if i < old_keys.len() {
                            assert(old_keys[i] != key@);
                            assert(old_places.dom().contains(old_keys[i]));
                        }
                    }
                    assert forall|k: Seq<char>| #[trigger] places.dom().contains(k) implies places[k]
                        < new_keys.len() && new_keys[places[k] as int] == k by {
                        if k != key@ {
                            assert(old_places.dom().contains(k));
                        }
                    }
                    lemma_key_slot(new_keys, key@, old_keys.len() as int);
                    assert forall|other: Seq<char>| other != key@ implies (if holds_key(
                        new_keys,
                        other,
                    ) {
                        Some(values@[slot_of_key(new_keys, other)])
                    } else {
                        None::<V>
                    }) == (if holds_key(old_keys, other) {
                        Some(old_values[slot_of_key(old_keys, other)])
                    } else {
                        None::<V>
                    }) by {
                        if holds_key(old_keys, other) {
                            let k = slot_of_key(old_keys, other);
                            assert(new_keys[k] == other);
                            lemma_key_slot(new_keys, other, k);
                        } else if holds_key(new_keys, other) {
                            let k = slot_of_key(new_keys, other);
                            assert(k < old_keys.len());
                            assert(old_keys[k] == other);
                        }
                    }
                }
            },
        }
        self.store = Some(Store { keys, values, index });
    }

    /// Takes the record of a symbol out of the store.
    pub fn remove(&mut self, key: &str) -> (r: Option<V>)
        ensures
            final(self).wf(),
            r == old(self).value_of(key@),
            final(self).is_removal_of(old(self), key@),
            !final(self).contains(key@),
    {
        proof {
            use_type_invariant(&*self);
        }
        let slot = match self.find(key) {
            Some(i) => i,
            None => {
                return None;
            },
        };
        let mut taken: Option<Store<V>> = None;
        core::mem::swap(&mut taken, &mut self.store);
        let store = match taken {
            Some(store) => store,
            None => {
                return None;
            },
        };
        let Store { mut keys, mut values, mut index } = store;
        let ghost old_keys = texts_view(keys@);
        let ghost old_places = symbol_places(index);
        let _ = keys.remove(slot);
        let value = values.remove(slot);
        drop_symbol_place(&mut index, key);
        proof {
            let now_keys = texts_view(keys@);
            let places = symbol_places(index);
            assert(now_keys =~= old_keys.remove(slot as int));
            assert forall|a: int, b: int| 0 <= a < b < now_keys.len() implies now_keys[a]
                != now_keys[b] by {
                let a0 = if a < slot {
                    a
                } else {
                    a + 1
                };
                let b0 = if b < slot {
                    b
                } else {
                    b + 1
                };
                assert(old_keys[a0] != old_keys[b0]);
            }
            assert forall|a: int| 0 <= a < now_keys.len() implies #[trigger] now_keys[a] != key@ by {
                let a0 = if a < slot {
                    a
                } else {
                    a + 1
                };
                if a0 < slot {
                    assert(old_keys[a0] != old_keys[slot as int]);
                } else {
                    assert(old_keys[slot as int] != old_keys[a0]);
                }
            }
            assert forall|i: int| 0 <= i < now_keys.len() implies places.dom().contains(
                #[trigger] now_keys[i],
            ) by {
                let i0 = if i < slot {
                    i
                } else {
                    i + 1
                };
                assert(old_places.dom().contains(old_keys[i0]));
            }
            assert forall|i: int| 0 <= i < slot && i < now_keys.len() implies places[#[trigger] now_keys[i]]
                == i by {
                assert(old_places.dom().contains(old_keys[i]));
            }
            assert forall|i: int| slot <= i < now_keys.len() implies places[#[trigger] now_keys[i]]
                == i + 1 by {
                assert(old_places.dom().contains(old_keys[i + 1]));
            }
            assert forall|k: Seq<char>| #[trigger] places.dom().contains(k) implies holds_key(
                now_keys,
                k,
            ) by {
                assert(old_places.dom().contains(k));
                let t = old_places[k] as int;
                assert(old_keys[t] == k);
                let t1 = if t < slot {
                    t
                } else {
                    t - 1
                };
                assert(now_keys[t1] == k);
            }
            assert(index_lags(now_keys, places, slot as int));
        }
        let mut j: usize = slot;
        while j < keys.len()
            invariant
                slot <= j <= keys@.len(),
                distinct_texts(texts_view(keys@)),
                index_lags(texts_view(keys@), symbol_places(index), j as int),
            decreases keys@.len() - j,
        {
            let ghost before = symbol_places(index);
            let ghost held = texts_view(keys@);
            set_symbol_place(&mut index, keys[j].clone(), j);
            proof {
                let places = symbol_places(index);
                assert forall|i: int| 0 <= i < held.len() implies places.dom().contains(
                    #[trigger] held[i],
                ) by {
                    assert(before.dom().contains(held[i]));
                }
                assert forall|i: int| 0 <= i < j + 1 && i < held.len() implies places[#[trigger] held[i]]
                    == i by {
                    if i < j {
                        assert(held[i] != held[j as int]);
                    }
                }
                assert forall|i: int| j + 1 <= i < held.len() implies places[#[trigger] held[i]] == i
                    + 1 by {
                    assert(held[j as int] != held[i]);
                }
                assert forall|k: Seq<char>| #[trigger] places.dom().contains(k) implies holds_key(
                    held,
                    k,
                ) by {
                    if k != held[j as int] {
                        assert(before.dom().contains(k));
                    }
                }
            }
            j = j + 1;
        }
        proof {
            let now_keys = texts_view(keys@);
            let places = symbol_places(index);
            assert forall|k: Seq<char>| #[trigger] places.dom().contains(k) implies places[k]
                < now_keys.len() && now_keys[places[k] as int] == k by {
                assert(holds_key(now_keys, k));
                let t = slot_of_key(now_keys, k);
                assert(places[now_keys[t]] == t);
            }
        }
        self.store = Some(Store { keys, values, index });
        Some(value)
    }
}

} // verus!
