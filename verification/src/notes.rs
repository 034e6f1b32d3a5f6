//! The note registry: one installment obligation (note) per record, keyed
//! by the order it belongs to and its index within that order.
//!
//! Notes are minted one per installment on the authority of a
//! `ChargeAuthorized` event from the credit ledger. Minting is not
//! idempotent: a second mint under the same `(order_id, index)` key is
//! refused by the store, and the indexer must treat that refusal as
//! "already minted" rather than retry blindly.

use vstd::prelude::*;

use crate::base::{Id, StoreError};

verus! {

/// Where a note stands in its lifecycle. The enumeration is ordinal, from
/// issuance to settlement; no operation yet enforces forward-only
/// progression, which is an open policy question.
#[derive(Clone, Copy, PartialEq, Eq, Structural, Debug)]
pub enum NoteStatus {
    Issued,
    Advanced,
    DueUpcoming,
    DueToday,
    Paid,
    PastDue,
    Defaulted,
    Settled,
}

/// One installment obligation. The amount and the order linkage never
/// change after issuance; the beneficiary starts as the merchant and may
/// later be reassigned to the advance pool.
#[derive(Clone, Copy, PartialEq, Eq, Structural, Debug)]
pub struct NoteState {
    pub note_id: Id,
    pub merchant: Id,
    pub beneficiary: Id,
    pub buyer: Id,
    pub amount_usdc: u64,
    pub due_ts: i64,
    pub status: NoteStatus,
    pub order_id: Id,
    pub index: u8,
}

impl NoteState {
    /// The state of a freshly minted note: issued, with the merchant as
    /// its beneficiary.
    pub open spec fn fresh(
        note_id: Id,
        order_id: Id,
        index: u8,
        buyer: Id,
        merchant: Id,
        amount_usdc: u64,
        due_ts: i64,
    ) -> NoteState {
        NoteState {
            note_id: note_id,
            merchant: merchant,
            beneficiary: merchant,
            buyer: buyer,
            amount_usdc: amount_usdc,
            due_ts: due_ts,
            status: NoteStatus::Issued,
            order_id: order_id,
            index: index,
        }
    }

    /// A declared settlement entry point with no transition committed
    /// yet: which guards should allow marking a note paid is an open
    /// policy question, and until that is decided the note is left as
    /// it stands.
    pub fn mark_paid(&mut self)
        ensures
            *final(self) == *old(self),
    {
    }

    /// A declared transfer entry point with no transition committed yet:
    /// the note keeps its current beneficiary whatever identity is handed
    /// in, until the intended guards are decided.
    pub fn assign_beneficiary(&mut self, _new_beneficiary: Id)
        ensures
            *final(self) == *old(self),
    {
    }
}

/// Returned by a successful `mint_note`.
#[derive(Clone, Copy, PartialEq, Eq, Structural, Debug)]
pub struct NoteIssued {
    pub note: Id,
    pub buyer: Id,
    pub merchant: Id,
    pub amount_usdc: u64,
    pub due_ts: i64,
    pub index: u8,
}

/// The stored set of notes. Stands for the slice of the hosting ledger's
/// record store that the note registry owns: each `(order_id, index)` key
/// addresses at most one note.
pub struct NoteRegistry {
    pub notes: Vec<NoteState>,
}

impl NoteRegistry {
    /// No two notes share an `(order_id, index)` key.
    pub open spec fn wf(self) -> bool {
        forall|i: int, j: int|
            0 <= i < j < self.notes@.len() ==> !((#[trigger] self.notes@[i]).order_id == (
            #[trigger] self.notes@[j]).order_id && self.notes@[i].index == self.notes@[j].index)
    }

    pub open spec fn contains_key(self, order_id: Id, index: u8) -> bool {
        exists|i: int|
            0 <= i < self.notes@.len() && (#[trigger] self.notes@[i]).order_id == order_id
                && self.notes@[i].index == index
    }

    pub fn new() -> (r: NoteRegistry)
        ensures
            r.wf(),
            r.notes@.len() == 0,
    {
        NoteRegistry { notes: Vec::new() }
    }

    /// Where the note under `(order_id, index)` stands in the store, if
    /// anywhere.
    pub fn note_index(&self, order_id: Id, index: u8) -> (r: Option<usize>)
        ensures
            match r {
                Some(i) => i < self.notes@.len() && self.notes@[i as int].order_id == order_id
                    && self.notes@[i as int].index == index,
                None => !self.contains_key(order_id, index),
            },
    {
        let mut i: usize = 0;
        while i < self.notes.len()
            invariant
                i <= self.notes@.len(),
                forall|j: int|
                    0 <= j < i ==> !((#[trigger] self.notes@[j]).order_id == order_id
                        && self.notes@[j].index == index),
            decreases self.notes@.len() - i,
        {
            if self.notes[i].order_id == order_id && self.notes[i].index == index {
                return Some(i);
            }
            i = i + 1;
        }
        None
    }

    /// Mints one installment note under the `(order_id, index)` key, at
    /// the record address the runtime derived for that key. The merchant
    /// starts as the beneficiary. Refused when a note already exists
    /// under the key: issuance is deliberately not idempotent.
    pub fn mint_note(
        &mut self,
        note_id: Id,
        order_id: Id,
        index: u8,
        buyer: Id,
        merchant: Id,
        amount_usdc: u64,
        due_ts: i64,
    ) -> (r: Result<NoteIssued, StoreError>)
        requires
            old(self).wf(),
        ensures
            final(self).wf(),
            final(self).contains_key(order_id, index),
            match r {
                Ok(ev) => !old(self).contains_key(order_id, index)
                    && final(self).notes@ == old(self).notes@.push(
                    NoteState::fresh(note_id, order_id, index, buyer, merchant, amount_usdc, due_ts),
                ) && ev == (NoteIssued {
                    note: note_id,
                    buyer: buyer,
                    merchant: merchant,
                    amount_usdc: amount_usdc,
                    due_ts: due_ts,
                    index: index,
                }),
                Err(e) => e == StoreError::AlreadyExists && old(self).contains_key(order_id, index)
                    && *final(self) == *old(self),
            },
    {
        match self.note_index(order_id, index) {
            Some(i) => {
                proof {
                    assert(self.notes@[i as int].order_id == order_id);
                }
                Err(StoreError::AlreadyExists)
            },
            None => {
                let ghost n = self.notes@.len();
                self.notes.push(
                    NoteState {
                        note_id,
                        merchant,
                        beneficiary: merchant,
                        buyer,
                        amount_usdc,
                        due_ts,
                        status: NoteStatus::Issued,
                        order_id,
                        index,
                    },
                );
                proof {
                    assert(self.notes@[n as int].order_id == order_id);
                }
                Ok(NoteIssued { note: note_id, buyer, merchant, amount_usdc, due_ts, index })
            },
        }
    }
}

} // verus!
