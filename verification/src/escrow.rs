use vstd::prelude::*;

use crate::types::{EscrowId, EscrowState, Immutables};

verus! {

/// One stored escrow: the immutable record beside its mutable lifecycle
/// state.
#[derive(Clone, Copy, Debug)]
pub struct EscrowEntry {
    pub record: Immutables,
    pub state: EscrowState,
}

/// Durable, keyed storage of escrow records and states. The store is a dumb
/// mapping: an id is its position in the creation order, a record written
/// once is never overwritten or deleted, and which state changes are lawful
/// is the state machine's business, not the store's.
#[derive(Debug)]
pub struct EscrowManager {
    pub entries: Vec<EscrowEntry>,
}

impl EscrowManager {
    /// The id has been handed out by this store.
    pub open spec fn spec_issued(self, id: EscrowId) -> bool {
        id.index < self.entries@.len()
    }

    /// The id the next creation will receive.
    pub open spec fn spec_fresh_id(self) -> EscrowId {
        EscrowId { index: self.entries@.len() as u64 }
    }

    /// The record stored under an id, if any.
    pub open spec fn spec_record(self, id: EscrowId) -> Option<Immutables> {
        if self.spec_issued(id) {
            Some(self.entries@[id.index as int].record)
        } else {
            None
        }
    }

    /// The state stored under an id, if any.
    pub open spec fn spec_state(self, id: EscrowId) -> Option<EscrowState> {
        if self.spec_issued(id) {
            Some(self.entries@[id.index as int].state)
        } else {
            None
        }
    }

    pub fn new() -> (store: Self)
        ensures
            store.entries@.len() == 0,
    {
        EscrowManager { entries: Vec::new() }
    }

    /// Persist a record with state `Active` under a fresh id, and return the
    /// id. The id is new: it was not issued before, and everything issued
    /// before is untouched and still issued.
    pub fn create(&mut self, record: Immutables) -> (id: EscrowId)
        ensures
            id == old(self).spec_fresh_id(),
            !old(self).spec_issued(id),
            final(self).spec_issued(id),
            final(self).spec_record(id) == Some(record),
            final(self).spec_state(id) == Some(EscrowState::Active),
            final(self).entries@ == old(self).entries@.push(
                (EscrowEntry { record, state: EscrowState::Active }),
            ),
            forall|other: EscrowId| old(self).spec_issued(other) ==> {
                &&& final(self).spec_issued(other)
                &&& final(self).spec_record(other) == old(self).spec_record(other)
                &&& final(self).spec_state(other) == old(self).spec_state(other)
            },
    {
        let id = self.generate_id();
        self.entries.push(EscrowEntry { record, state: EscrowState::Active });
        id
    }

    /// Read a record back.
    pub fn get(&self, escrow_id: EscrowId) -> (record: Option<Immutables>)
        ensures
            record == self.spec_record(escrow_id),
    {
        if escrow_id.index < self.entries.len() as u64 {
            Some(self.entries[escrow_id.index as usize].record)
        } else {
            None
        }
    }

    /// Read a state back.
    pub fn get_state(&self, escrow_id: EscrowId) -> (state: Option<EscrowState>)
        ensures
            state == self.spec_state(escrow_id),
    {
        if escrow_id.index < self.entries.len() as u64 {
            Some(self.entries[escrow_id.index as usize].state)
        } else {
            None
        }
    }

    /// Overwrite the state under an issued id, leaving its record and every
    /// other entry as they were; under an unknown id, change nothing. Whether
    /// the transition is lawful is for the caller to have checked.
    pub fn set_state(&mut self, escrow_id: EscrowId, state: EscrowState)
        ensures
            final(self).spec_record(escrow_id) == old(self).spec_record(escrow_id),
            old(self).spec_issued(escrow_id) ==> final(self).spec_state(escrow_id) == Some(state),
            old(self).spec_issued(escrow_id) ==> final(self).entries@ == old(self).entries@.update(
                escrow_id.index as int,
                (EscrowEntry { record: old(self).entries@[escrow_id.index as int].record, state }),
            ),
            !old(self).spec_issued(escrow_id) ==> *final(self) == *old(self),
            final(self).entries@.len() == old(self).entries@.len(),
            forall|other: EscrowId| other != escrow_id ==> {
                &&& final(self).spec_record(other) == old(self).spec_record(other)
                &&& final(self).spec_state(other) == old(self).spec_state(other)
            },
    {
        if escrow_id.index < self.entries.len() as u64 {
            let i = escrow_id.index as usize;
            let record = self.entries[i].record;
            self.entries.set(i, EscrowEntry { record, state });
        }
    }

    /// The next fresh id: the count of entries stored so far. The count is a
    /// `usize`, so it always fits the id's width.
    fn generate_id(&self) -> (id: EscrowId)
        ensures
            id == self.spec_fresh_id(),
            id.index == self.entries@.len(),
    {
        EscrowId { index: self.entries.len() as u64 }
    }
}

/// Id uniqueness: the id the store hands out next differs from every id it
/// has issued. Since each creation returns the then-fresh id and no operation
/// forgets an issued id, the ids returned by any sequence of creations are
/// pairwise distinct.
pub proof fn lemma_fresh_id_distinct(store: EscrowManager, id: EscrowId)
    requires
        store.spec_issued(id),
    ensures
        store.spec_fresh_id() != id,
{
    broadcast use vstd::std_specs::vec::axiom_spec_len;

    assert(vstd::std_specs::vec::spec_vec_len(&store.entries) == store.entries@.len());
}

} // verus!
