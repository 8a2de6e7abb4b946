//! The vault ledger: a keyed store with exactly one record per user
//! identity over its lifetime. Viewed abstractly as a map from owner to
//! record.

use vstd::prelude::*;
use crate::QUANTUM;
use crate::errors::VaultError;
use crate::vault::VaultRecord;

verus! {

/// One record per user, keyed by the owner identity.
pub struct VaultLedger {
    records: Vec<VaultRecord>,
}

impl View for VaultLedger {
    type V = Map<u64, VaultRecord>;

    closed spec fn view(&self) -> Map<u64, VaultRecord> {
        Map::new(
            |o: u64|
                exists|i: int|
                    0 <= i < self.records@.len() && (#[trigger] self.records@[i]).owner == o,
            |o: u64|
                self.records@[choose|i: int|
                    0 <= i < self.records@.len() && (#[trigger] self.records@[i]).owner == o],
        )
    }
}

impl VaultLedger {
    /// Well-formedness: at most one record per owner, and every record is
    /// well formed.
    pub closed spec fn wf(&self) -> bool {
        &&& forall|i: int, j: int|
                0 <= i < j < self.records@.len()
                    ==> (#[trigger] self.records@[i]).owner != (#[trigger] self.records@[j]).owner
        &&& forall|i: int| 0 <= i < self.records@.len() ==> (#[trigger] self.records@[i]).wf()
    }

    /// Every record held by a well-formed ledger is well formed and sits
    /// under its own owner as key.
    pub proof fn lemma_view_wf(&self)
        requires
            self.wf(),
        ensures
            forall|o: u64| self@.contains_key(o)
                ==> (#[trigger] self@[o]).wf() && self@[o].owner == o,
    {
        assert forall|o: u64| self@.contains_key(o)
            implies (#[trigger] self@[o]).wf() && self@[o].owner == o by {
            let i = choose|i: int|
                0 <= i < self.records@.len() && (#[trigger] self.records@[i]).owner == o;
            assert(self.records@[i].wf());
        }
    }

    /// Conservation, for any user at any point: everything ever granted to
    /// them is still pending, is withdrawable now, or was withdrawn — one
    /// quantum per grant, exactly.
    pub proof fn lemma_ledger_conservation(&self)
        requires
            self.wf(),
        ensures
            forall|o: u64| self@.contains_key(o)
                ==> (#[trigger] self@[o]).pending_balance + self@[o].withdrawable_balance
                    + self@[o].total_withdrawn@ == QUANTUM * self@[o].accrual_count@,
    {
        self.lemma_view_wf();
    }

    /// The record at a valid index is what the view holds under its owner.
    proof fn lemma_value_at(&self, i: int)
        requires
            self.wf(),
            0 <= i < self.records@.len(),
        ensures
            self@.contains_key(self.records@[i].owner),
            self@[self.records@[i].owner] == self.records@[i],
    {
        let o = self.records@[i].owner;
        assert(self@.contains_key(o));
        let j = choose|j: int|
            0 <= j < self.records@.len() && (#[trigger] self.records@[j]).owner == o;
        if i < j {
            assert(self.records@[i].owner != self.records@[j].owner);
        } else if j < i {
            assert(self.records@[j].owner != self.records@[i].owner);
        }
    }

    /// An empty ledger.
    pub fn new() -> (l: VaultLedger)
        ensures
            l.wf(),
            l@ == Map::<u64, VaultRecord>::empty(),
    {
        let l = VaultLedger { records: Vec::new() };
        proof {
            assert(l@ =~= Map::<u64, VaultRecord>::empty());
        }
        l
    }

    /// Where the record of `owner` sits in the backing vector, if anywhere.
    fn find_index(&self, owner: u64) -> (r: Option<usize>)
        ensures
            match r {
                Some(i) => i < self.records@.len() && self.records@[i as int].owner == owner,
                None => forall|i: int|
                    0 <= i < self.records@.len()
                        ==> (#[trigger] self.records@[i]).owner != owner,
            },
    {
        let mut i: usize = 0;
        while i < self.records.len()
            invariant
                i <= self.records@.len(),
                forall|j: int| 0 <= j < i ==> (#[trigger] self.records@[j]).owner != owner,
            decreases self.records@.len() - i,
        {
            if self.records[i].owner == owner {
                return Some(i);
            }
            i += 1;
        }
        None
    }

    /// Look the user's record up; `None` when no vault exists for them.
    pub fn get(&self, owner: u64) -> (r: Option<VaultRecord>)
        requires
            self.wf(),
        ensures
            match r {
                Some(rec) => self@.contains_key(owner) && rec == self@[owner],
                None => !self@.contains_key(owner),
            },
    {
        match self.find_index(owner) {
            Some(i) => {
                proof {
                    self.lemma_value_at(i as int);
                }
                Some(self.records[i])
            },
            None => {
                proof {
                    assert(!self@.contains_key(owner));
                }
                None
            },
        }
    }

    /// Create the user's vault. Fails with `DuplicateVault`, leaving the
    /// ledger unchanged, when one already exists: a vault is created at
    /// most once per user over its lifetime.
    pub fn create(&mut self, owner: u64, now: i64, authority_tag: u8)
        -> (r: Result<VaultRecord, VaultError>)
        requires
            old(self).wf(),
        ensures
            final(self).wf(),
            match r {
                Ok(rec) => {
                    &&& !old(self)@.contains_key(owner)
                    &&& rec == VaultRecord::fresh_spec(owner, now, authority_tag)
                    &&& final(self)@ == old(self)@.insert(owner, rec)
                },
                Err(e) => {
                    &&& e == VaultError::DuplicateVault
                    &&& old(self)@.contains_key(owner)
                    &&& final(self)@ == old(self)@
                },
            },
    {
        match self.find_index(owner) {
            Some(i) => {
                proof {
                    self.lemma_value_at(i as int);
                }
                Err(VaultError::DuplicateVault)
            },
            None => {
                let rec = VaultRecord::fresh(owner, now, authority_tag);
                let ghost pre = *self;
                self.records.push(rec);
                proof {
                    self.lemma_insert_view(pre, rec);
                }
                Ok(rec)
            },
        }
    }

    /// Pushing a record whose owner is absent refines a map insert.
    proof fn lemma_insert_view(&self, pre: VaultLedger, rec: VaultRecord)
        requires
            pre.wf(),
            rec.wf(),
            !pre@.contains_key(rec.owner),
            self.records@ == pre.records@.push(rec),
        ensures
            self.wf(),
            self@ == pre@.insert(rec.owner, rec),
    {
        let n = pre.records@.len() as int;
        assert forall|i: int| 0 <= i < n
            implies (#[trigger] self.records@[i]).owner != rec.owner by {
            pre.lemma_value_at(i);
        }
        assert forall|i: int, j: int| 0 <= i < j < self.records@.len()
            implies (#[trigger] self.records@[i]).owner
                != (#[trigger] self.records@[j]).owner by {
            if j < n {
                assert(pre.records@[i].owner != pre.records@[j].owner);
            }
        }
        assert(self.wf());
        assert forall|o: u64| #[trigger] self@.contains_key(o)
            implies pre@.insert(rec.owner, rec).contains_key(o)
                && self@[o] == pre@.insert(rec.owner, rec)[o] by {
            let i = choose|i: int|
                0 <= i < self.records@.len() && (#[trigger] self.records@[i]).owner == o;
            self.lemma_value_at(i);
            if o == rec.owner {
                assert(self.records@[n].owner == o);
                assert(self@[o] == rec);
            } else {
                assert(i < n);
                pre.lemma_value_at(i);
            }
        }
        assert forall|o: u64| pre@.insert(rec.owner, rec).contains_key(o)
            implies #[trigger] self@.contains_key(o) by {
            if o == rec.owner {
                assert(self.records@[n].owner == o);
            } else {
                let i = choose|i: int|
                    0 <= i < pre.records@.len() && (#[trigger] pre.records@[i]).owner == o;
                assert(self.records@[i].owner == o);
            }
        }
        assert(self@ =~= pre@.insert(rec.owner, rec));
    }

    /// Replacing the record at a valid index by one with the same owner
    /// refines a map insert.
    proof fn lemma_update_view(&self, pre: VaultLedger, i: int, rec: VaultRecord)
        requires
            pre.wf(),
            rec.wf(),
            0 <= i < pre.records@.len(),
            rec.owner == pre.records@[i].owner,
            self.records@ == pre.records@.update(i, rec),
        ensures
            self.wf(),
            self@ == pre@.insert(rec.owner, rec),
    {
        assert forall|p: int, q: int| 0 <= p < q < self.records@.len()
            implies (#[trigger] self.records@[p]).owner
                != (#[trigger] self.records@[q]).owner by {
            assert(pre.records@[p].owner != pre.records@[q].owner);
        }
        assert(self.wf());
        assert forall|o: u64| #[trigger] self@.contains_key(o)
            implies pre@.insert(rec.owner, rec).contains_key(o)
                && self@[o] == pre@.insert(rec.owner, rec)[o] by {
            let j = choose|j: int|
                0 <= j < self.records@.len() && (#[trigger] self.records@[j]).owner == o;
            self.lemma_value_at(j);
            if o == rec.owner {
                if j != i {
                    assert(pre.records@[j].owner != pre.records@[i].owner);
                }
                assert(self@[o] == rec);
            } else {
                assert(j != i);
                assert(pre.records@[j].owner == o);
                pre.lemma_value_at(j);
            }
        }
        assert forall|o: u64| pre@.insert(rec.owner, rec).contains_key(o)
            implies #[trigger] self@.contains_key(o) by {
            if o == rec.owner {
                assert(self.records@[i].owner == o);
            } else {
                let j = choose|j: int|
                    0 <= j < pre.records@.len() && (#[trigger] pre.records@[j]).owner == o;
                assert(self.records@[j].owner == o);
            }
        }
        assert(self@ =~= pre@.insert(rec.owner, rec));
    }

    /// Atomically replace the record of `rec.owner`, which must already be
    /// present. The internal read-modify-write step of every mutation.
    pub(crate) fn put(&mut self, rec: VaultRecord) -> (ok: bool)
        requires
            old(self).wf(),
            rec.wf(),
        ensures
            final(self).wf(),
            ok == old(self)@.contains_key(rec.owner),
            ok ==> final(self)@ == old(self)@.insert(rec.owner, rec),
            !ok ==> final(self)@ == old(self)@,
    {
        match self.find_index(rec.owner) {
            Some(i) => {
                proof {
                    self.lemma_value_at(i as int);
                }
                let ghost pre = *self;
                self.records[i] = rec;
                proof {
                    self.lemma_update_view(pre, i as int, rec);
                }
                true
            },
            None => {
                proof {
                    assert(!self@.contains_key(rec.owner));
                }
                false
            },
        }
    }
}

} // verus!
