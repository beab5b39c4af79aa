//! The cache of recent top-of-book snapshots, by which a snapshot that
//! comes a second time over a redundant connection is told from a new one.

use crate::datastructures::symbol_map::{distinct_texts, holds_key, lemma_key_slot, same_text, slot_of_key, texts_view};
use crate::model::hl_msgs::PriceLevel;
use std::collections::VecDeque;
use vstd::prelude::*;

verus! {

/// How many snapshots the cache remembers.
pub const TOB_CACHE_CAPACITY: usize = 100;

pub enum TobCacheResult {
    /// The snapshot is new and was remembered.
    Added,
    /// The snapshot is one that the cache remembers; nothing was changed.
    Duplicate,
    /// The snapshot is new and was remembered in place of the oldest,
    /// whose identity this is.
    AddedWithEviction(String),
}

pub struct TobCache {
    ids: VecDeque<String>,
    tobs: VecDeque<(PriceLevel, PriceLevel)>,
    capacity: usize,
}

impl TobCache {
    #[verifier::type_invariant]
    spec fn sound(&self) -> bool {
        &&& self.ids@.len() == self.tobs@.len()
        &&& self.ids@.len() <= self.capacity
        &&& self.capacity == TOB_CACHE_CAPACITY
        &&& distinct_texts(texts_view(self.ids@))
    }

    /// The identities of the snapshots remembered, the oldest first.
    pub closed spec fn ids_view(&self) -> Seq<Seq<char>> {
        texts_view(self.ids@)
    }

    /// The snapshots remembered, each at the place of its identity.
    pub closed spec fn tobs_view(&self) -> Seq<(PriceLevel, PriceLevel)> {
        self.tobs@
    }

    /// How many snapshots the cache remembers at most.
    pub closed spec fn spec_capacity(&self) -> nat {
        self.capacity as nat
    }

    /// The snapshot of an identity, where the cache remembers it.
    pub open spec fn snapshot_of(&self, id: Seq<char>) -> Option<(PriceLevel, PriceLevel)> {
        if holds_key(self.ids_view(), id) {
            Some(self.tobs_view()[slot_of_key(self.ids_view(), id)])
        } else {
            None
        }
    }

    /// What holds of every cache: as many snapshots as identities, no
    /// identity twice, and never more than its capacity, which is a
    /// hundred.
    pub open spec fn wf(&self) -> bool {
        &&& self.ids_view().len() == self.tobs_view().len()
        &&& self.ids_view().len() <= self.spec_capacity()
        &&& self.spec_capacity() == TOB_CACHE_CAPACITY
        &&& distinct_texts(self.ids_view())
    }

    /// A cache that remembers nothing, with room for a hundred snapshots.
    pub fn new() -> (r: Self)
        ensures
            r.wf(),
            r.ids_view() == Seq::<Seq<char>>::empty(),
            r.tobs_view() == Seq::<(PriceLevel, PriceLevel)>::empty(),
            r.spec_capacity() == TOB_CACHE_CAPACITY,
    {
        let r = TobCache {
            ids: VecDeque::with_capacity(TOB_CACHE_CAPACITY),
            tobs: VecDeque::with_capacity(TOB_CACHE_CAPACITY),
            capacity: TOB_CACHE_CAPACITY,
        };
        assert(texts_view(r.ids@) =~= Seq::<Seq<char>>::empty());
        r
    }

    fn find(&self, id: &str) -> (r: Option<usize>)
        ensures
            self.wf(),
            r is Some <==> holds_key(self.ids_view(), id@),
            r matches Some(i) ==> i == slot_of_key(self.ids_view(), id@) && i < self.ids_view().len(),
    {
        proof {
            use_type_invariant(self);
        }
        let ghost keys = texts_view(self.ids@);
        let mut i: usize = 0;
        while i < self.ids.len()
            invariant
                i <= self.ids.len(),
                keys == texts_view(self.ids@),
                self.ids@.len() == self.tobs@.len(),
                self.ids@.len() <= self.capacity,
                self.capacity == TOB_CACHE_CAPACITY,
                distinct_texts(keys),
                forall|j: int| 0 <= j < i ==> #[trigger] keys[j] != id@,
            decreases self.ids.len() - i,
        {
            if same_text(self.ids[i].as_str(), id) {
                proof {
                    lemma_key_slot(keys, id@, i as int);
                }
                return Some(i);
            }
            i = i + 1;
        }
        None
    }

    /// Remembers a snapshot under its identity, unless the cache remembers
    /// that identity; a cache that is full forgets its oldest snapshot first.
    pub fn update(&mut self, message_id: String, tob: (PriceLevel, PriceLevel)) -> (r:
        TobCacheResult)
        ensures
            final(self).wf(),
            final(self).spec_capacity() == old(self).spec_capacity(),
            if holds_key(old(self).ids_view(), message_id@) {
                &&& r is Duplicate
                &&& final(self).ids_view() == old(self).ids_view()
                &&& final(self).tobs_view() == old(self).tobs_view()
            } else if old(self).ids_view().len() >= old(self).spec_capacity() {
                &&& r matches TobCacheResult::AddedWithEviction(evicted) && evicted@ == old(self).ids_view()[0]
                &&& final(self).ids_view() == old(self).ids_view().drop_first().push(message_id@)
                &&& final(self).tobs_view() == old(self).tobs_view().drop_first().push(tob)
            } else {
                &&& r is Added
                &&& final(self).ids_view() == old(self).ids_view().push(message_id@)
                &&& final(self).tobs_view() == old(self).tobs_view().push(tob)
            },
    {
        proof {
            use_type_invariant(&*self);
        }
        if self.find(message_id.as_str()).is_some() {
            return TobCacheResult::Duplicate;
        }
        if self.ids.len() >= self.capacity {
            return self.evict_and_add(message_id, tob);
        }
        let mut taken = TobCache { ids: VecDeque::new(), tobs: VecDeque::new(), capacity: TOB_CACHE_CAPACITY };
        assert(texts_view(taken.ids@) =~= Seq::<Seq<char>>::empty());
        core::mem::swap(&mut taken, self);
        let TobCache { mut ids, mut tobs, capacity } = taken;
        let ghost before = texts_view(ids@);
        ids.push_back(message_id);
        tobs.push_back(tob);
        proof {
            let after = texts_view(ids@);
            assert(after =~= before.push(message_id@));
            assert forall|a: int, b: int| 0 <= a < b < after.len() implies after[a] != after[b] by {
                if b == before.len() {
                    assert(before[a] != message_id@);
                }
            }
        }
        *self = TobCache { ids, tobs, capacity };
        TobCacheResult::Added
    }

    fn evict_and_add(&mut self, message_id: String, levels: (PriceLevel, PriceLevel)) -> (r:
        TobCacheResult)
        requires
            old(self).ids@.len() >= 1,
            !holds_key(texts_view(old(self).ids@), message_id@),
        ensures
            final(self).wf(),
            final(self).spec_capacity() == old(self).spec_capacity(),
            r matches TobCacheResult::AddedWithEviction(evicted) && evicted@ == old(self).ids_view()[0],
            final(self).ids_view() == old(self).ids_view().drop_first().push(message_id@),
            final(self).tobs_view() == old(self).tobs_view().drop_first().push(levels),
    {
        proof {
            use_type_invariant(&*self);
        }
        let mut taken = TobCache { ids: VecDeque::new(), tobs: VecDeque::new(), capacity: TOB_CACHE_CAPACITY };
        assert(texts_view(taken.ids@) =~= Seq::<Seq<char>>::empty());
        core::mem::swap(&mut taken, self);
        let TobCache { mut ids, mut tobs, capacity } = taken;
        let ghost before = texts_view(ids@);
        let evicted = ids.pop_front();
        let _ = tobs.pop_front();
        ids.push_back(message_id);
        tobs.push_back(levels);
        proof {
            let after = texts_view(ids@);
            assert(after =~= before.drop_first().push(message_id@));
            assert forall|a: int, b: int| 0 <= a < b < after.len() implies after[a] != after[b] by {
                if b == after.len() - 1 {
                    assert(before[a + 1] != message_id@);
                } else {
                    assert(before[a + 1] != before[b + 1]);
                }
            }
        }
        *self = TobCache { ids, tobs, capacity };
        match evicted {
            Some(id) => TobCacheResult::AddedWithEviction(id),
            None => TobCacheResult::Added,
        }
    }

    /// The snapshot remembered under an identity.
    pub fn get(&self, message_id: &str) -> (r: Option<&(PriceLevel, PriceLevel)>)
        ensures
            match r {
                Some(tob) => self.snapshot_of(message_id@) == Some(*tob),
                None => self.snapshot_of(message_id@) is None,
            },
    {
        proof {
            use_type_invariant(self);
        }
        match self.find(message_id) {
            Some(i) => Some(&self.tobs[i]),
            None => None,
        }
    }

    /// How many snapshots the cache remembers.
    pub fn len(&self) -> (r: usize)
        ensures
            r == self.ids_view().len(),
            self.wf(),
    {
        proof {
            use_type_invariant(self);
        }
        self.ids.len()
    }

    /// Whether the cache remembers nothing.
    pub fn is_empty(&self) -> (r: bool)
        ensures
            r == (self.ids_view().len() == 0),
    {
        self.ids.len() == 0
    }
}

} // verus!
