//! Identifiers shared by all four ledger components, and the storage
//! layer's refusal to create a record twice.

use vstd::prelude::*;

verus! {

/// A 32-byte record address or opaque key, held as four 64-bit words.
///
/// The hosting ledger derives record addresses deterministically from seed
/// material (owner identity, asset identity, order identity, index). This
/// library never derives addresses itself: it stores and compares the
/// identifiers the runtime resolved.
#[derive(Clone, Copy, PartialEq, Eq, Structural, Debug)]
pub struct Id {
    pub w0: u64,
    pub w1: u64,
    pub w2: u64,
    pub w3: u64,
}

impl Id {
    pub fn new(w0: u64, w1: u64, w2: u64, w3: u64) -> (r: Id)
        ensures
            r == (Id { w0, w1, w2, w3 }),
    {
        Id { w0, w1, w2, w3 }
    }

    /// The all-zero identifier, used where a reference is not yet set.
    pub fn zero() -> (r: Id)
        ensures
            r == Id::zero_spec(),
    {
        Id { w0: 0, w1: 0, w2: 0, w3: 0 }
    }

    pub open spec fn zero_spec() -> Id {
        Id { w0: 0, w1: 0, w2: 0, w3: 0 }
    }
}

/// Why the storage layer refused to create a record.
///
/// Record creation is keyed by a derived address, so creating a record
/// under a key that is already taken is rejected outright rather than
/// treated as a no-op.
#[derive(Clone, Copy, PartialEq, Eq, Structural, Debug)]
pub enum StoreError {
    AlreadyExists,
}

} // verus!
