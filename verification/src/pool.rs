//! The advance pool: a guarantee reserve and the authority to reassign a
//! note's beneficiary, realizing early payment (factoring) or guaranteed
//! settlement for the merchant.
//!
//! The pool holds delegated write authority over note records it does not
//! own; the hosting runtime checks the admin signature that authorizes
//! the bypass of the merchant's consent. Paying the merchant out of pool
//! custody, the discount computation, and the reserve debit on settlement
//! are open extension points: the operations here reassign the
//! beneficiary and report the figures, and nothing else.

use vstd::prelude::*;

use crate::base::Id;
use crate::notes::NoteState;

verus! {

/// The pool record: its custody reference, the guarantee reserve, and
/// the admin who may replenish it.
#[derive(Clone, Copy, PartialEq, Eq, Structural, Debug)]
pub struct Pool {
    pub usdc_vault: Id,
    pub guarantee_reserve_usdc: u64,
    pub admin: Id,
}

#[derive(Clone, Copy, PartialEq, Eq, Structural, Debug)]
pub enum PoolError {
    InsufficientReserve,
    Unauthorized,
}

/// Returned by `advance`. The discount is not yet specified, so the net
/// figure equals the gross.
#[derive(Clone, Copy, PartialEq, Eq, Structural, Debug)]
pub struct Advanced {
    pub note: Id,
    pub gross: u64,
    pub discount: u64,
    pub net: u64,
}

/// Returned by `guarantee_settle`.
#[derive(Clone, Copy, PartialEq, Eq, Structural, Debug)]
pub struct GuaranteeSettled {
    pub note: Id,
    pub amount: u64,
}

/// Returned by a successful `replenish_reserve`.
#[derive(Clone, Copy, PartialEq, Eq, Structural, Debug)]
pub struct ReserveReplenished {
    pub amount: u64,
}

/// Creates the pool with an empty reserve and no custody reference yet,
/// recording the signer as its admin.
pub fn init_pool(admin: Id) -> (p: Pool)
    ensures
        p == (Pool { usdc_vault: Id::zero_spec(), guarantee_reserve_usdc: 0, admin: admin }),
{
    Pool { usdc_vault: Id::zero(), guarantee_reserve_usdc: 0, admin }
}

/// Factors the note: the pool at `pool_id` becomes its beneficiary, and
/// the event reports the gross receivable with a zero discount. Paying
/// the merchant the net figure from pool custody is an open extension
/// point.
pub fn advance(pool_id: Id, note: &mut NoteState) -> (ev: Advanced)
    ensures
        *final(note) == (NoteState { beneficiary: pool_id, ..*old(note) }),
        ev == (Advanced {
            note: old(note).note_id,
            gross: old(note).amount_usdc,
            discount: 0,
            net: old(note).amount_usdc,
        }),
{
    let ev = Advanced {
        note: note.note_id,
        gross: note.amount_usdc,
        discount: 0,
        net: note.amount_usdc,
    };
    note.beneficiary = pool_id;
    ev
}

/// Settles the note under the pool's guarantee: the pool at `pool_id`
/// becomes its beneficiary (a repeat of what `advance` does, so running
/// both leaves the same beneficiary). Debiting the guarantee reserve and
/// paying the merchant are open extension points.
pub fn guarantee_settle(pool_id: Id, note: &mut NoteState) -> (ev: GuaranteeSettled)
    ensures
        *final(note) == (NoteState { beneficiary: pool_id, ..*old(note) }),
        ev == (GuaranteeSettled { note: old(note).note_id, amount: old(note).amount_usdc }),
{
    let ev = GuaranteeSettled { note: note.note_id, amount: note.amount_usdc };
    note.beneficiary = pool_id;
    ev
}

impl Pool {
    /// Grows the guarantee reserve by `amount`, clamped at the largest
    /// representable balance. Only the pool's admin may replenish, and
    /// the reserve never shrinks here: settlement debits are a separate,
    /// not yet committed, obligation.
    pub fn replenish_reserve(&mut self, signer: Id, amount: u64) -> (r: Result<
        ReserveReplenished,
        PoolError,
    >)
        ensures
            final(self).guarantee_reserve_usdc >= old(self).guarantee_reserve_usdc,
            match r {
                Ok(ev) => signer == old(self).admin && *final(self) == (Pool {
                    guarantee_reserve_usdc: (if old(self).guarantee_reserve_usdc + amount
                        > u64::MAX {
                        u64::MAX
                    } else {
                        (old(self).guarantee_reserve_usdc + amount) as u64
                    }),
                    ..*old(self)
                }) && ev == (ReserveReplenished { amount: amount }),
                Err(e) => signer != old(self).admin && e == PoolError::Unauthorized && *final(self)
                    == *old(self),
            },
    {
        if signer != self.admin {
            return Err(PoolError::Unauthorized);
        }
        self.guarantee_reserve_usdc = self.guarantee_reserve_usdc.saturating_add(amount);
        Ok(ReserveReplenished { amount })
    }
}

} // verus!
