//! A buy-now-pay-later credit and receivables ledger, split across four
//! cooperating components: a revolving credit line, an installment note
//! registry, a collateral vault, and an advance/factoring pool.
//!
//! Each component owns a slice of the global financial state. Entry points
//! execute as one indivisible step against the records they declare: every
//! precondition failure returns an error and leaves every record unchanged,
//! and every successful step returns the event that downstream consumers
//! (an off-chain indexer) act on. The hosting ledger runtime supplies
//! signature verification and record addressing; callers hand each entry
//! point the identities the runtime resolved.

pub mod base;
pub mod credit;
pub mod notes;
pub mod pool;
pub mod vault;
