use vstd::prelude::*;
use crate::error::CaptureError;

verus! {

/// The identity under which a handler is registered. The host carries it
/// through the frame callback in place of the handler itself.
pub type DelegateId = u64;

struct Entry<H> {
    id: DelegateId,
    handler: H,
}

/// The table through which a frame callback finds its handler.
///
/// A handler is registered once and gets an identity that no other handler of
/// the table ever had or will have. The callback looks the handler up by that
/// identity; when the session is torn down the entry is removed, and the
/// identity finds nothing from then on.
pub struct DelegateTable<H> {
    entries: Vec<Entry<H>>,
    next_id: DelegateId,
}

impl<H> DelegateTable<H> {
    spec fn index_of(self, id: DelegateId) -> int {
        choose|k: int| 0 <= k < self.entries@.len() && self.entries@[k].id == id
    }

    spec fn has(self, id: DelegateId) -> bool {
        exists|k: int| 0 <= k < self.entries@.len() && self.entries@[k].id == id
    }

    /// The identities are distinct, and all of them were handed out before.
    pub closed spec fn wf(self) -> bool {
        &&& forall|j: int, k: int|
            0 <= j < k < self.entries@.len() ==> self.entries@[j].id != self.entries@[k].id
        &&& forall|k: int| 0 <= k < self.entries@.len() ==> self.entries@[k].id < self.next_id
    }

    proof fn lemma_index_of(self, k: int)
        requires
            self.wf(),
            0 <= k < self.entries@.len(),
        ensures
            self.has(self.entries@[k].id),
            self.index_of(self.entries@[k].id) == k,
    {
        let id = self.entries@[k].id;
        assert(0 <= k < self.entries@.len() && self.entries@[k].id == id);
        let j = self.index_of(id);
        assert(0 <= j < self.entries@.len() && self.entries@[j].id == id);
        assert(!(j < k) && !(k < j));
    }

    /// The identity that the next registration hands out.
    pub closed spec fn next_id(self) -> DelegateId {
        self.next_id
    }

    /// The registered handlers by identity.
    pub closed spec fn view(self) -> Map<DelegateId, H> {
        Map::new(|id: DelegateId| self.has(id), |id: DelegateId| self.entries@[self.index_of(id)].handler)
    }

    /// Every registered identity lies below the next one to be handed out.
    pub proof fn lemma_ids_below_next(self)
        requires
            self.wf(),
        ensures
            forall|id: DelegateId| self.view().dom().contains(id) ==> id < self.next_id(),
    {
    }

    /// An empty table.
    pub fn new() -> (table: Self)
        ensures
            table.wf(),
            table.view() == Map::<DelegateId, H>::empty(),
            table.next_id() == 0,
    {
        let table = DelegateTable { entries: Vec::new(), next_id: 0 };
        assert(table.view() =~= Map::<DelegateId, H>::empty());
        table
    }

    /// How many handlers are registered.
    pub fn len(&self) -> (count: usize)
        requires
            self.wf(),
        ensures
            count == self.view().dom().len(),
            self.view().dom().finite(),
    {
        proof {
            self.lemma_dom_len(self.entries@.len() as int);
            assert(self.dom_upto(self.entries@.len() as int) =~= self.view().dom());
        }
        self.entries.len()
    }

    spec fn dom_upto(self, n: int) -> Set<DelegateId> {
        Set::new(|id: DelegateId| exists|k: int| 0 <= k < n && self.entries@[k].id == id)
    }

    proof fn lemma_dom_len(self, n: int)
        requires
            self.wf(),
            0 <= n <= self.entries@.len(),
        ensures
            self.dom_upto(n).finite(),
            self.dom_upto(n).len() == n,
        decreases n,
    {
        if n == 0 {
            assert(self.dom_upto(0) =~= Set::<DelegateId>::empty());
        } else {
            self.lemma_dom_len(n - 1);
            let last = self.entries@[n - 1].id;
            assert(self.dom_upto(n) =~= self.dom_upto(n - 1).insert(last));
            assert(!self.dom_upto(n - 1).contains(last));
        }
    }

    /// Registers a handler under a fresh identity. Fails, and leaves the table
    /// as it was, only when every identity has been handed out.
    pub fn register(&mut self, handler: H) -> (registered: Result<DelegateId, CaptureError>)
        requires
            old(self).wf(),
        ensures
            final(self).wf(),
            old(self).next_id() < u64::MAX ==> registered == Ok::<DelegateId, CaptureError>(
                old(self).next_id(),
            ) && !old(self).view().dom().contains(old(self).next_id()) && final(self).view()
                == old(self).view().insert(old(self).next_id(), handler) && final(self).next_id()
                == old(self).next_id() + 1,
            old(self).next_id() == u64::MAX ==> registered == Err::<DelegateId, CaptureError>(
                CaptureError::DelegateRegistrationError,
            ) && final(self).view() == old(self).view() && final(self).next_id() == old(self).next_id(),
    {
        if self.next_id == u64::MAX {
            return Err(CaptureError::DelegateRegistrationError);
        }
        let id = self.next_id;
        let ghost before = *self;
        self.entries.push(Entry { id, handler });
        self.next_id = id + 1;
        proof {
            let after = *self;
            let n = before.entries@.len() as int;
            assert(after.entries@[n].id == id);
            assert forall|other: DelegateId| after.has(other) <==> (other == id || before.has(
                other,
            )) by {
                if before.has(other) {
                    let k = before.index_of(other);
                    assert(after.entries@[k].id == other);
                }
            }
            assert forall|other: DelegateId| after.has(other) implies #[trigger] after.view()[other]
                == before.view().insert(id, handler)[other] by {
                let k = after.index_of(other);
                if other != id {
                    let j = before.index_of(other);
                    assert(after.entries@[j].id == other);
                    after.lemma_index_of(j);
                } else {
                    after.lemma_index_of(n);
                }
            }
            assert(after.view() =~= before.view().insert(id, handler));
        }
        Ok(id)
    }

    /// The handler registered under the identity, if there is one.
    pub fn lookup(&self, id: DelegateId) -> (found: Option<&H>)
        requires
            self.wf(),
        ensures
            found.is_some() == self.view().dom().contains(id),
            found matches Some(handler) ==> *handler == self.view()[id],
    {
        let mut i: usize = 0;
        while i < self.entries.len()
            invariant
                self.wf(),
                i <= self.entries.len(),
                forall|k: int| 0 <= k < i ==> self.entries@[k].id != id,
            decreases self.entries.len() - i,
        {
            if self.entries[i].id == id {
                proof {
                    self.lemma_index_of(i as int);
                }
                return Some(&self.entries[i].handler);
            }
            i += 1;
        }
        None
    }

    /// Takes the handler registered under the identity out of the table. The
    /// identity is not handed out again.
    pub fn remove(&mut self, id: DelegateId) -> (removed: Option<H>)
        requires
            old(self).wf(),
        ensures
            final(self).wf(),
            final(self).next_id() == old(self).next_id(),
            final(self).view() == old(self).view().remove(id),
            removed.is_some() == old(self).view().dom().contains(id),
            removed matches Some(handler) ==> old(self).view().dom().contains(id) && handler
                == old(self).view()[id],
    {
        let ghost before = *self;
        let mut i: usize = 0;
        while i < self.entries.len()
            invariant
                *self == before,
                before == *old(self),
                before.wf(),
                i <= self.entries.len(),
                forall|k: int| 0 <= k < i ==> self.entries@[k].id != id,
            decreases self.entries.len() - i,
        {
            if self.entries[i].id == id {
                let entry = self.entries.remove(i);
                proof {
                    let after = *self;
                    before.lemma_index_of(i as int);
                    assert(after.entries@ == before.entries@.remove(i as int));
                    assert(after.wf());
                    assert forall|other: DelegateId| after.has(other) <==> (other != id
                        && before.has(other)) by {
                        if after.has(other) {
                            let k = after.index_of(other);
                            let j = if k < i { k } else { k + 1 };
                            assert(before.entries@[j].id == other);
                            before.lemma_index_of(j);
                        }
                        if other != id && before.has(other) {
                            let j = before.index_of(other);
                            let k = if j < i { j } else { j - 1 };
                            assert(after.entries@[k].id == other);
                        }
                    }
                    assert forall|other: DelegateId| after.has(other) implies #[trigger] after.view()[other]
                        == before.view()[other] by {
                        let k = after.index_of(other);
                        let j = if k < i { k } else { k + 1 };
                        assert(before.entries@[j].id == other);
                        before.lemma_index_of(j);
                    }
                    assert(after.view() =~= before.view().remove(id));
                }
                return Some(entry.handler);
            }
            i += 1;
        }
        proof {
            assert(self.view() =~= before.view().remove(id));
        }
        None
    }
}

/// A handler that was registered is found under its identity, no handler
/// registered earlier is lost or changed, and the identity was free before.
pub proof fn lemma_register_then_lookup<H>(
    before: DelegateTable<H>,
    after: DelegateTable<H>,
    id: DelegateId,
    handler: H,
)
    requires
        before.wf(),
        !before.view().dom().contains(id),
        after.view() == before.view().insert(id, handler),
    ensures
        after.view().dom().contains(id),
        after.view()[id] == handler,
        forall|other: DelegateId| #[trigger]
            before.view().dom().contains(other) ==> after.view().dom().contains(other)
                && after.view()[other] == before.view()[other],
{
}

} // verus!
