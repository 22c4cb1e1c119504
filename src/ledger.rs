use vstd::prelude::*;

use crate::model::records_inv;
use crate::state::{RecordId, Stored};

verus! {

/// The record store: each record under its id, with the key that paid for it.
///
/// Its model is a map from ids to stored records. The entries are kept in a
/// vector with one entry per id.
pub struct Ledger {
    entries: Vec<(RecordId, Stored)>,
    model: Ghost<Map<RecordId, Stored>>,
}

impl View for Ledger {
    type V = Map<RecordId, Stored>;

    closed spec fn view(&self) -> Map<RecordId, Stored> {
        self.model@
    }
}

impl Ledger {
    /// The entries hold exactly the model, one entry per id.
    pub closed spec fn wf(&self) -> bool {
        &&& forall|i: int|
            0 <= i < self.entries@.len() ==> {
                &&& self.model@.contains_key(#[trigger] self.entries@[i].0)
                &&& self.model@[self.entries@[i].0] == self.entries@[i].1
            }
        &&& forall|i: int, j: int|
            0 <= i < j < self.entries@.len() ==> #[trigger] self.entries@[i].0
                != #[trigger] self.entries@[j].0
        &&& forall|k: RecordId|
            #[trigger] self.model@.contains_key(k) ==> exists|i: int|
                0 <= i < self.entries@.len() && #[trigger] self.entries@[i].0 == k
    }

    /// The entries are consistent and every record fits its id.
    pub open spec fn inv(&self) -> bool {
        self.wf() && records_inv(self@)
    }

    /// An empty store.
    pub fn new() -> (r: Ledger)
        ensures
            r.inv(),
            r@ == Map::<RecordId, Stored>::empty(),
    {
        Ledger { entries: Vec::new(), model: Ghost(Map::empty()) }
    }

    fn find(&self, id: &RecordId) -> (r: Option<usize>)
        requires
            self.wf(),
        ensures
            match r {
                Some(i) => i < self.entries@.len() && self.entries@[i as int].0 == *id,
                None => !self@.contains_key(*id),
            },
    {
        let mut i: usize = 0;
        while i < self.entries.len()
            invariant
                0 <= i <= self.entries@.len(),
                forall|j: int| 0 <= j < i ==> #[trigger] self.entries@[j].0 != *id,
            decreases self.entries@.len() - i,
        {
            if self.entries[i].0.same(id) {
                return Some(i);
            }
            i += 1;
        }
        None
    }

    /// The record stored under `id`, if there is one.
    pub fn get(&self, id: &RecordId) -> (r: Option<Stored>)
        requires
            self.wf(),
        ensures
            r == (if self@.contains_key(*id) {
                Some(self@[*id])
            } else {
                None::<Stored>
            }),
    {
        match self.find(id) {
            Some(i) => Some(self.entries[i].1),
            None => None,
        }
    }

    /// Stores `s` under `id`, creating or overwriting.
    pub(crate) fn set(&mut self, id: RecordId, s: Stored)
        requires
            old(self).wf(),
        ensures
            final(self).wf(),
            final(self)@ == old(self)@.insert(id, s),
    {
        let found = self.find(&id);
        let ghost old_entries = self.entries@;
        self.model = Ghost(self.model@.insert(id, s));
        match found {
            Some(i) => {
                self.entries.set(i, (id, s));
                assert forall|k: RecordId| #[trigger]
                    self.model@.contains_key(k) implies exists|j: int|
                        0 <= j < self.entries@.len() && #[trigger] self.entries@[j].0 == k by {
                    if k != id {
                        let j = choose|j: int|
                            0 <= j < old_entries.len() && #[trigger] old_entries[j].0 == k;
                        assert(self.entries@[j].0 == k);
                    } else {
                        assert(self.entries@[i as int].0 == k);
                    }
                }
            },
            None => {
                self.entries.push((id, s));
                assert forall|k: RecordId| #[trigger]
                    self.model@.contains_key(k) implies exists|j: int|
                        0 <= j < self.entries@.len() && #[trigger] self.entries@[j].0 == k by {
                    if k != id {
                        let j = choose|j: int|
                            0 <= j < old_entries.len() && #[trigger] old_entries[j].0 == k;
                        assert(self.entries@[j].0 == k);
                    } else {
                        assert(self.entries@[old_entries.len() as int].0 == k);
                    }
                }
            },
        }
    }

    /// Closes the record under `id` and hands it back.
    pub(crate) fn remove(&mut self, id: &RecordId) -> (r: Stored)
        requires
            old(self).wf(),
            old(self)@.contains_key(*id),
        ensures
            final(self).wf(),
            final(self)@ == old(self)@.remove(*id),
            r == old(self)@[*id],
    {
        let i = match self.find(id) {
            Some(i) => i,
            None => {
                assert(false);
                0
            },
        };
        let ghost old_entries = self.entries@;
        let r = self.entries[i].1;
        self.model = Ghost(self.model@.remove(*id));
        self.entries.remove(i);
        assert forall|j: int| 0 <= j < self.entries@.len() implies {
            &&& self.model@.contains_key(#[trigger] self.entries@[j].0)
            &&& self.model@[self.entries@[j].0] == self.entries@[j].1
        } by {
            if j < i {
                assert(self.entries@[j] == old_entries[j]);
            } else {
                assert(self.entries@[j] == old_entries[j + 1]);
            }
        }
        assert forall|a: int, b: int| 0 <= a < b < self.entries@.len() implies #[trigger] self.entries@[a].0
            != #[trigger] self.entries@[b].0 by {
            let a0 = if a < i { a } else { a + 1 };
            let b0 = if b < i { b } else { b + 1 };
            assert(self.entries@[a] == old_entries[a0]);
            assert(self.entries@[b] == old_entries[b0]);
        }
        assert forall|k: RecordId| #[trigger]
            self.model@.contains_key(k) implies exists|j: int|
                0 <= j < self.entries@.len() && #[trigger] self.entries@[j].0 == k by {
            let j0 = choose|j: int| 0 <= j < old_entries.len() && #[trigger] old_entries[j].0 == k;
            if j0 < i {
                assert(self.entries@[j0].0 == k);
            } else {
                assert(self.entries@[j0 - 1].0 == k);
            }
        }
        r
    }
}

} // verus!
