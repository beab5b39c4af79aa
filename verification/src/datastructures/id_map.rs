//! A keyed store for records with a numeric identity: each identity once,
//! in the order in which the identities first came. The records stand in a
//! list; a hash index says where in the list the record of an identity
//! stands.

use crate::datastructures::index::{drop_id_place, id_place, id_places, new_id_index, set_id_place};
use dashmap::DashMap;
use vstd::prelude::*;

verus! {

pub open spec fn distinct_keys(keys: Seq<u128>) -> bool {
    forall|i: int, j: int| 0 <= i < j < keys.len() ==> keys[i] != keys[j]
}

pub open spec fn holds_id(keys: Seq<u128>, key: u128) -> bool {
    exists|i: int| 0 <= i < keys.len() && #[trigger] keys[i] == key
}

pub open spec fn slot_of_id(keys: Seq<u128>, key: u128) -> int {
    choose|i: int| 0 <= i < keys.len() && #[trigger] keys[i] == key
}

/// In a list without repetition an identity stands in one place only.
pub proof fn lemma_id_slot(keys: Seq<u128>, key: u128, i: int)
    requires
        distinct_keys(keys),
        0 <= i < keys.len(),
        keys[i] == key,
    ensures
        holds_id(keys, key),
        slot_of_id(keys, key) == i,
{
    let c = slot_of_id(keys, key);
    if c < i {
        assert(keys[c] != keys[i]);
    } else if i < c {
        assert(keys[i] != keys[c]);
    }
}

struct Store<V> {
    keys: Vec<u128>,
    values: Vec<V>,
    index: DashMap<u128, usize>,
}

/// The index says of each key where it stands, and of nothing else.
spec fn index_agrees(keys: Seq<u128>, places: Map<u128, usize>) -> bool {
    &&& forall|i: int|
        0 <= i < keys.len() ==> places.dom().contains(#[trigger] keys[i]) && places[keys[i]] == i
    &&& forall|k: u128| #[trigger]
        places.dom().contains(k) ==> places[k] < keys.len() && keys[places[k] as int] == k
}

/// The index as it stands while the places behind a gap are put right:
/// it holds the keys and nothing else, says the truth of the first `done`
/// keys, and of every later key the place behind its own.
spec fn index_lags(keys: Seq<u128>, places: Map<u128, usize>, done: int) -> bool {
    &&& forall|i: int| 0 <= i < keys.len() ==> places.dom().contains(#[trigger] keys[i])
    &&& forall|i: int| 0 <= i < done && i < keys.len() ==> places[#[trigger] keys[i]] == i
    &&& forall|i: int| done <= i < keys.len() ==> places[#[trigger] keys[i]] == i + 1
    &&& forall|k: u128| #[trigger] places.dom().contains(k) ==> holds_id(keys, k)
}

spec fn store_sound<V>(store: Store<V>) -> bool {
    &&& store.keys@.len() == store.values@.len()
    &&& distinct_keys(store.keys@)
    &&& index_agrees(store.keys@, id_places(store.index))
}

pub struct IdMap<V> {
    store: Option<Store<V>>,
}

impl<V> IdMap<V> {
    #[verifier::type_invariant]
    spec fn sound(&self) -> bool {
        self.store matches Some(store) ==> store_sound(store)
    }

    /// The identities, in the order in which they first came.
    pub closed spec fn keys_view(&self) -> Seq<u128> {
        match self.store {
            Some(store) => store.keys@,
            None => Seq::empty(),
        }
    }

    /// The records, each at the place of its identity.
    pub closed spec fn values_view(&self) -> Seq<V> {
        match self.store {
            Some(store) => store.values@,
            None => Seq::empty(),
        }
    }

    pub open spec fn spec_len(&self) -> nat {
        self.keys_view().len()
    }

    pub open spec fn contains(&self, key: u128) -> bool {
        holds_id(self.keys_view(), key)
    }

    /// The record of an identity, where the store holds one.
    pub open spec fn value_of(&self, key: u128) -> Option<V> {
        if self.contains(key) {
            Some(self.values_view()[slot_of_id(self.keys_view(), key)])
        } else {
            None
        }
    }

    /// What holds of every store: as many records as identities, and no
    /// identity twice.
    pub open spec fn wf(&self) -> bool {
        &&& self.keys_view().len() == self.values_view().len()
        &&& distinct_keys(self.keys_view())
    }

    /// The store after `key` was set to `value`: in place where the store
    /// held the identity, at the end where it did not.
    pub open spec fn is_insert_of(&self, before: &Self, key: u128, value: V) -> bool {
        if before.contains(key) {
            &&& self.keys_view() == before.keys_view()
            &&& self.values_view() == before.values_view().update(
                slot_of_id(before.keys_view(), key),
                value,
            )
        } else {
            &&& self.keys_view() == before.keys_view().push(key)
            &&& self.values_view() == before.values_view().push(value)
        }
    }

    /// The store after `key` was taken out; the others keep their order.
    pub open spec fn is_removal_of(&self, before: &Self, key: u128) -> bool {
        if before.contains(key) {
            &&& self.keys_view() == before.keys_view().remove(slot_of_id(before.keys_view(), key))
            &&& self.values_view() == before.values_view().remove(
                slot_of_id(before.keys_view(), key),
            )
        } else {
            &&& self.keys_view() == before.keys_view()
            &&& self.values_view() == before.values_view()
        }
    }

    /// A store that holds nothing.
    pub fn new() -> (r: Self)
        ensures
            r.keys_view() == Seq::<u128>::empty(),
            r.values_view() == Seq::<V>::empty(),
            r.wf(),
    {
        IdMap { store: None }
    }

    /// How many identities the store holds.
    pub fn len(&self) -> (r: usize)
        ensures
            r == self.spec_len(),
            self.wf(),
    {
        proof {
            use_type_invariant(self);
        }
        match &self.store {
            Some(store) => store.keys.len(),
            None => 0,
        }
    }

    /// Whether the store holds nothing.
    pub fn is_empty(&self) -> (r: bool)
        ensures
            r == (self.spec_len() == 0),
    {
        match &self.store {
            Some(store) => store.keys.len() == 0,
            None => true,
        }
    }

    /// The place of an identity in the store.
    pub fn find(&self, key: u128) -> (r: Option<usize>)
        ensures
            self.wf(),
            r is Some <==> self.contains(key),
            r matches Some(i) ==> i == slot_of_id(self.keys_view(), key) && i < self.spec_len()
                && self.keys_view()[i as int] == key,
    {
        proof {
            use_type_invariant(self);
        }
        match &self.store {
            Some(store) => {
                let found = id_place(&store.index, key);
                proof {
                    let keys = store.keys@;
                    let places = id_places(store.index);
                    match found {
                        Some(i) => {
                            assert(places.dom().contains(key));
                            lemma_id_slot(keys, key, i as int);
                        },
                        None => {
                            assert forall|j: int| 0 <= j < keys.len() implies #[trigger] keys[j]
                                != key by {
                                assert(places.dom().contains(keys[j]));
                            }
                        },
                    }
                }
                found
            },
            None => None,
        }
    }

    /// The record of an identity, where the store holds one.
    pub fn get(&self, key: u128) -> (r: Option<&V>)
        ensures
            self.wf(),
            match r {
                Some(v) => self.value_of(key) == Some(*v),
                None => self.value_of(key) is None,
            },
    {
        proof {
            use_type_invariant(self);
        }
        match self.find(key) {
            Some(i) => match &self.store {
                Some(store) => Some(&store.values[i]),
                None => None,
            },
            None => None,
        }
    }

    /// The identity at a place.
    pub fn key_at(&self, i: usize) -> (r: u128)
        requires
            i < self.spec_len(),
        ensures
            r == self.keys_view()[i as int],
    {
        match &self.store {
            Some(store) => store.keys[i],
            None => vstd::pervasive::unreached(),
        }
    }

    /// The record at a place.
    pub fn value_at(&self, i: usize) -> (r: &V)
        requires
            i < self.spec_len(),
        ensures
            self.wf(),
            *r == self.values_view()[i as int],
    {
        proof {
            use_type_invariant(self);
        }
        match &self.store {
            Some(store) => &store.values[i],
            None => vstd::pervasive::unreached(),
        }
    }

    /// Replaces the record at a place.
    pub fn set_value(&mut self, i: usize, value: V)
        requires
            i < old(self).spec_len(),
        ensures
            final(self).keys_view() == old(self).keys_view(),
            final(self).values_view() == old(self).values_view().update(i as int, value),
            final(self).wf(),
    {
        proof {
            use_type_invariant(&*self);
        }
        let mut taken: Option<Store<V>> = None;
        core::mem::swap(&mut taken, &mut self.store);
        match taken {
            Some(store) => {
                let Store { keys, mut values, index } = store;
                values.set(i, value);
                self.store = Some(Store { keys, values, index });
            },
            None => {},
        }
    }

    /// Sets the record of an identity: in place where the store holds the
    /// identity, at the end where it does not.
    pub fn insert(&mut self, key: u128, value: V)
        ensures
            final(self).wf(),
            final(self).is_insert_of(old(self), key, value),
    {
        proof {
            use_type_invariant(&*self);
        }
        let slot = self.find(key);
        let mut taken: Option<Store<V>> = None;
        core::mem::swap(&mut taken, &mut self.store);
        let store = match taken {
            Some(store) => store,
            None => Store { keys: Vec::new(), values: Vec::new(), index: new_id_index() },
        };
        let Store { mut keys, mut values, mut index } = store;
        let ghost old_keys = keys@;
        match slot {
            Some(i) => {
                values.set(i, value);
            },
            None => {
                let place = keys.len();
                let ghost old_places = id_places(index);
                set_id_place(&mut index, key, place);
                keys.push(key);
                values.push(value);
                proof {
                    let places = id_places(index);
                    assert forall|a: int, b: int| 0 <= a < b < keys@.len() implies keys@[a]
                        != keys@[b] by {
                        if b == old_keys.len() {
                            assert(old_keys[a] != key);
                        }
                    }
                    assert forall|i: int| 0 <= i < keys@.len() implies places.dom().contains(
                        #[trigger] keys@[i],
                    ) && places[keys@[i]] == i by {
                        if i < old_keys.len() {
                            assert(old_keys[i] != key);
                            assert(old_places.dom().contains(old_keys[i]));
                        }
                    }
                    assert forall|k: u128| #[trigger] places.dom().contains(k) implies places[k]
                        < keys@.len() && keys@[places[k] as int] == k by {
                        if k != key {
                            assert(old_places.dom().contains(k));
                        }
                    }
                }
            },
        }
        self.store = Some(Store { keys, values, index });
    }

    /// Takes the record of an identity out of the store.
    pub fn remove(&mut self, key: u128) -> (r: Option<V>)
        ensures
            final(self).wf(),
            r == old(self).value_of(key),
            final(self).is_removal_of(old(self), key),
            !final(self).contains(key),
    {
        proof {
            use_type_invariant(&*self);
        }
        let slot = match self.find(key) {
            Some(i) => i,
            None => {
                return None;
            },
        };
        let mut taken: Option<Store<V>> = None;
        core::mem::swap(&mut taken, &mut self.store);
        let store = match taken {
            Some(store) => store,
            None => {
                return None;
            },
        };
        let Store { mut keys, mut values, mut index } = store;
        let ghost old_keys = keys@;
        let ghost old_places = id_places(index);
        let _ = keys.remove(slot);
        let value = values.remove(slot);
        drop_id_place(&mut index, key);
        proof {
            let places = id_places(index);
            assert forall|a: int, b: int| 0 <= a < b < keys@.len() implies keys@[a] != keys@[b] by {
                let a0 = if a < slot {
                    a
                } else {
                    a + 1
                };
                let b0 = if b < slot {
                    b
                } else {
                    b + 1
                };
                assert(old_keys[a0] != old_keys[b0]);
            }
            assert forall|a: int| 0 <= a < keys@.len() implies #[trigger] keys@[a] != key by {
                let a0 = if a < slot {
                    a
                } else {
                    a + 1
                };
                if a0 < slot {
                    assert(old_keys[a0] != old_keys[slot as int]);
                } else {
                    assert(old_keys[slot as int] != old_keys[a0]);
                }
            }
            assert forall|i: int| 0 <= i < keys@.len() implies places.dom().contains(
                #[trigger] keys@[i],
            ) by {
                let i0 = if i < slot {
                    i
                } else {
                    i + 1
                };
                assert(old_places.dom().contains(old_keys[i0]));
            }
            assert forall|i: int| 0 <= i < slot && i < keys@.len() implies places[#[trigger] keys@[i]]
                == i by {
                assert(old_places.dom().contains(old_keys[i]));
            }
            assert forall|i: int| slot <= i < keys@.len() implies places[#[trigger] keys@[i]] == i
                + 1 by {
                assert(old_places.dom().contains(old_keys[i + 1]));
            }
            assert forall|k: u128| #[trigger] places.dom().contains(k) implies holds_id(
                keys@,
                k,
            ) by {
                assert(old_places.dom().contains(k));
                let t = old_places[k] as int;
                assert(old_keys[t] == k);
                let t1 = if t < slot {
                    t
                } else {
                    t - 1
                };
                assert(keys@[t1] == k);
            }
            assert(index_lags(keys@, places, slot as int));
        }
        let mut j: usize = slot;
        while j < keys.len()
            invariant
                slot <= j <= keys@.len(),
                distinct_keys(keys@),
                index_lags(keys@, id_places(index), j as int),
            decreases keys@.len() - j,
        {
            let ghost before = id_places(index);
            set_id_place(&mut index, keys[j], j);
            proof {
                let places = id_places(index);
                assert forall|i: int| 0 <= i < keys@.len() implies places.dom().contains(
                    #[trigger] keys@[i],
                ) by {
                    assert(before.dom().contains(keys@[i]));
                }
                assert forall|i: int| 0 <= i < j + 1 && i < keys@.len() implies places[#[trigger] keys@[i]]
                    == i by {
                    if i < j {
                        assert(keys@[i] != keys@[j as int]);
                    }
                }
                assert forall|i: int| j + 1 <= i < keys@.len() implies places[#[trigger] keys@[i]]
                    == i + 1 by {
                    assert(keys@[j as int] != keys@[i]);
                }
                assert forall|k: u128| #[trigger] places.dom().contains(k) implies holds_id(
                    keys@,
                    k,
                ) by {
                    if k != keys@[j as int] {
                        assert(before.dom().contains(k));
                    }
                }
            }
            j = j + 1;
        }
        proof {
            let places = id_places(index);
            assert forall|k: u128| #[trigger] places.dom().contains(k) implies places[k]
                < keys@.len() && keys@[places[k] as int] == k by {
                assert(holds_id(keys@, k));
                let t = slot_of_id(keys@, k);
                assert(places[keys@[t]] == t);
            }
        }
        self.store = Some(Store { keys, values, index });
        Some(value)
    }

    /// Takes every record out of the store.
    pub fn clear(&mut self)
        ensures
            final(self).keys_view() == Seq::<u128>::empty(),
            final(self).values_view() == Seq::<V>::empty(),
            final(self).wf(),
    {
        self.store = None;
    }
}

} // verus!
