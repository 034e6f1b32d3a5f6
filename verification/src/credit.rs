//! The credit ledger: per-customer revolving credit accounts and the
//! issuer-wide risk configuration.
//!
//! A `CreditAccount` carries a revolving limit and the amount currently
//! used; `used_usdc <= limit_usdc` holds after every operation. Charges
//! are gated by account status, available limit, and the account's health
//! factor against the issuer's configured floor. A successful `charge`
//! returns the `ChargeAuthorized` event that authorizes the off-chain
//! indexer to mint the installment notes for the order.

use vstd::prelude::*;

use crate::base::{Id, StoreError};

verus! {

/// Issuer-wide risk configuration, written once by the issuer's admin and
/// read by every credit-ledger operation.
#[derive(Clone, Copy, PartialEq, Eq, Structural, Debug)]
pub struct Config {
    pub min_hf_bps_for_new_charges: u32,
    pub min_hf_bps_for_withdraw: u32,
    pub penalty_rate_bps_daily: u32,
    pub late_fee_bps: u32,
    pub grace_volatile_days: u8,
    pub grace_any_days: u8,
    pub admin: Id,
}

/// The parameters handed to `init_config`.
#[derive(Clone, Copy, PartialEq, Eq, Structural, Debug)]
pub struct ConfigParams {
    pub min_hf_bps_for_new_charges: u32,
    pub min_hf_bps_for_withdraw: u32,
    pub penalty_rate_bps_daily: u32,
    pub late_fee_bps: u32,
    pub grace_volatile_days: u8,
    pub grace_any_days: u8,
}

impl Default for ConfigParams {
    /// All rates, floors and grace periods at zero.
    fn default() -> (r: ConfigParams)
        ensures
            r == (ConfigParams {
                min_hf_bps_for_new_charges: 0,
                min_hf_bps_for_withdraw: 0,
                penalty_rate_bps_daily: 0,
                late_fee_bps: 0,
                grace_volatile_days: 0,
                grace_any_days: 0,
            }),
    {
        ConfigParams {
            min_hf_bps_for_new_charges: 0,
            min_hf_bps_for_withdraw: 0,
            penalty_rate_bps_daily: 0,
            late_fee_bps: 0,
            grace_volatile_days: 0,
            grace_any_days: 0,
        }
    }
}

/// Creates the issuer configuration from the given parameters, recording
/// the signer as the configuration's admin.
pub fn init_config(params: ConfigParams, admin: Id) -> (cfg: Config)
    ensures
        cfg == (Config {
            min_hf_bps_for_new_charges: params.min_hf_bps_for_new_charges,
            min_hf_bps_for_withdraw: params.min_hf_bps_for_withdraw,
            penalty_rate_bps_daily: params.penalty_rate_bps_daily,
            late_fee_bps: params.late_fee_bps,
            grace_volatile_days: params.grace_volatile_days,
            grace_any_days: params.grace_any_days,
            admin: admin,
        }),
{
    Config {
        min_hf_bps_for_new_charges: params.min_hf_bps_for_new_charges,
        min_hf_bps_for_withdraw: params.min_hf_bps_for_withdraw,
        penalty_rate_bps_daily: params.penalty_rate_bps_daily,
        late_fee_bps: params.late_fee_bps,
        grace_volatile_days: params.grace_volatile_days,
        grace_any_days: params.grace_any_days,
        admin: admin,
    }
}

#[derive(Clone, Copy, PartialEq, Eq, Structural, Debug)]
pub enum AccountStatus {
    Active,
    SoftFrozen,
    HardFrozen,
}

#[derive(Clone, Copy, PartialEq, Eq, Structural, Debug)]
pub enum CreditError {
    InsufficientLimit,
    HfTooLow,
    AccountFrozen,
    InstallmentsNotAllowed,
    UsedExceedsNewLimit,
    Unauthorized,
}

/// A successful `charge` returns this event. It is the sole authorization
/// for the indexer to mint `installments` notes whose amounts sum to
/// `amount_usdc` for the order.
#[derive(Clone, Copy, PartialEq, Eq, Structural, Debug)]
pub struct ChargeAuthorized {
    pub owner: Id,
    pub amount_usdc: u64,
    pub installments: u8,
    pub order_id: Id,
}

/// Returned by `repay`.
#[derive(Clone, Copy, PartialEq, Eq, Structural, Debug)]
pub struct PaymentPosted {
    pub owner: Id,
    pub amount_usdc: u64,
}

/// Returned by `statement_close`. The total-due, minimum-payment and
/// due-date figures are an open billing extension point and are reported
/// as zero until a billing policy is committed.
#[derive(Clone, Copy, PartialEq, Eq, Structural, Debug)]
pub struct StatementClosed {
    pub owner: Id,
    pub cycle_id: u64,
    pub total_due_usdc: u64,
    pub min_payment_usdc: u64,
    pub due_date_ts: i64,
}

/// A per-customer revolving credit account.
#[derive(Clone, Copy, PartialEq, Eq, Structural, Debug)]
pub struct CreditAccount {
    pub owner: Id,
    pub limit_usdc: u64,
    pub used_usdc: u64,
    pub health_factor_bps: u32,
    pub score: u16,
    pub billing_cycle_day: u8,
    pub status: AccountStatus,
}

impl CreditAccount {
    /// The account invariant: the balance in use never exceeds the limit.
    pub open spec fn wf(self) -> bool {
        self.used_usdc <= self.limit_usdc
    }

    /// The state of a newly opened account: no limit, nothing used, a
    /// health factor of 1.20, and active status.
    pub open spec fn fresh(owner: Id) -> CreditAccount {
        CreditAccount {
            owner: owner,
            limit_usdc: 0,
            used_usdc: 0,
            health_factor_bps: 12000,
            score: 0,
            billing_cycle_day: 5,
            status: AccountStatus::Active,
        }
    }

    /// The limit still available for new charges.
    pub open spec fn available_credit(self) -> int {
        if self.limit_usdc >= self.used_usdc {
            self.limit_usdc - self.used_usdc
        } else {
            0
        }
    }

    /// Which refusal, if any, `charge` answers on this account, in the
    /// order the guards are checked: status, available limit, health
    /// factor, installment count.
    pub open spec fn charge_refusal(
        self,
        cfg: Config,
        amount_usdc: u64,
        installments: u8,
    ) -> Option<CreditError> {
        if self.status != AccountStatus::Active {
            Some(CreditError::AccountFrozen)
        } else if self.available_credit() < amount_usdc {
            Some(CreditError::InsufficientLimit)
        } else if self.health_factor_bps < cfg.min_hf_bps_for_new_charges {
            Some(CreditError::HfTooLow)
        } else if installments == 0 {
            Some(CreditError::InstallmentsNotAllowed)
        } else {
            None
        }
    }

    /// Replaces the account's limit. Only the configured admin may do so,
    /// and the new limit may not fall below the balance in use.
    pub fn set_limit(&mut self, cfg: &Config, signer: Id, new_limit_usdc: u64) -> (r: Result<
        (),
        CreditError,
    >)
        requires
            old(self).wf(),
        ensures
            final(self).wf(),
            final(self).used_usdc <= final(self).limit_usdc,
            match r {
                Ok(()) => signer == cfg.admin && old(self).used_usdc <= new_limit_usdc
                    && *final(self) == (CreditAccount { limit_usdc: new_limit_usdc, ..*old(self) }),
                Err(e) => *final(self) == *old(self) && e == (if signer != cfg.admin {
                    CreditError::Unauthorized
                } else {
                    CreditError::UsedExceedsNewLimit
                }) && (signer != cfg.admin || old(self).used_usdc > new_limit_usdc),
            },
    {
        if signer != cfg.admin {
            return Err(CreditError::Unauthorized);
        }
        if self.used_usdc > new_limit_usdc {
            return Err(CreditError::UsedExceedsNewLimit);
        }
        self.limit_usdc = new_limit_usdc;
        Ok(())
    }

    /// Consumes `amount_usdc` of the account's limit and returns the
    /// event that authorizes minting the order's installment notes.
    ///
    /// The guards are checked in order: the account must be active, the
    /// available limit must cover the amount, the health factor must meet
    /// the configured floor, and at least one installment must be asked
    /// for. A refused charge leaves the account unchanged.
    pub fn charge(
        &mut self,
        cfg: &Config,
        amount_usdc: u64,
        installments: u8,
        order_id: Id,
    ) -> (r: Result<ChargeAuthorized, CreditError>)
        requires
            old(self).wf(),
        ensures
            final(self).wf(),
            final(self).used_usdc <= final(self).limit_usdc,
            r is Ok ==> old(self).status == AccountStatus::Active && old(self).health_factor_bps
                >= cfg.min_hf_bps_for_new_charges && installments != 0,
            match r {
                Ok(ev) => old(self).charge_refusal(*cfg, amount_usdc, installments) is None
                    && *final(self) == (CreditAccount {
                    used_usdc: (old(self).used_usdc + amount_usdc) as u64,
                    ..*old(self)
                }) && ev == (ChargeAuthorized {
                    owner: old(self).owner,
                    amount_usdc: amount_usdc,
                    installments: installments,
                    order_id: order_id,
                }),
                Err(e) => old(self).charge_refusal(*cfg, amount_usdc, installments) == Some(e)
                    && *final(self) == *old(self),
            },
    {
        if self.status != AccountStatus::Active {
            return Err(CreditError::AccountFrozen);
        }
        let available = self.limit_usdc.saturating_sub(self.used_usdc);
        if available < amount_usdc {
            return Err(CreditError::InsufficientLimit);
        }
        if self.health_factor_bps < cfg.min_hf_bps_for_new_charges {
            return Err(CreditError::HfTooLow);
        }
        if installments == 0 {
            return Err(CreditError::InstallmentsNotAllowed);
        }
        self.used_usdc = self.used_usdc.saturating_add(amount_usdc);
        Ok(ChargeAuthorized { owner: self.owner, amount_usdc, installments, order_id })
    }

    /// Posts a payment: the balance in use falls by `amount_usdc`, to no
    /// lower than zero. A soft-frozen account whose balance stands at
    /// zero afterwards reverts to active; no other field changes.
    pub fn repay(&mut self, amount_usdc: u64) -> (ev: PaymentPosted)
        requires
            old(self).wf(),
        ensures
            final(self).wf(),
            final(self).used_usdc == (if amount_usdc >= old(self).used_usdc {
                0u64
            } else {
                (old(self).used_usdc - amount_usdc) as u64
            }),
            final(self).status == (if old(self).status == AccountStatus::SoftFrozen
                && final(self).used_usdc == 0 {
                AccountStatus::Active
            } else {
                old(self).status
            }),
            *final(self) == (CreditAccount {
                used_usdc: final(self).used_usdc,
                status: final(self).status,
                ..*old(self)
            }),
            amount_usdc == 0 && !(old(self).status == AccountStatus::SoftFrozen
                && old(self).used_usdc == 0) ==> *final(self) == *old(self),
            ev == (PaymentPosted { owner: old(self).owner, amount_usdc: amount_usdc }),
    {
        self.used_usdc = self.used_usdc.saturating_sub(amount_usdc);
        if self.status == AccountStatus::SoftFrozen && self.used_usdc == 0 {
            self.status = AccountStatus::Active;
        }
        PaymentPosted { owner: self.owner, amount_usdc }
    }

    /// Closes a billing cycle. Computing the amounts due is an open
    /// billing extension point: the event reports zeros, and the account
    /// itself is not touched.
    pub fn statement_close(&self, cycle_id: u64) -> (ev: StatementClosed)
        ensures
            ev == (StatementClosed {
                owner: self.owner,
                cycle_id: cycle_id,
                total_due_usdc: 0,
                min_payment_usdc: 0,
                due_date_ts: 0,
            }),
    {
        StatementClosed {
            owner: self.owner,
            cycle_id,
            total_due_usdc: 0,
            min_payment_usdc: 0,
            due_date_ts: 0,
        }
    }

    /// Overwrites the status with soft-frozen, whatever it was before.
    pub fn soft_freeze(&mut self)
        requires
            old(self).wf(),
        ensures
            final(self).wf(),
            *final(self) == (CreditAccount { status: AccountStatus::SoftFrozen, ..*old(self) }),
    {
        self.status = AccountStatus::SoftFrozen;
    }

    /// Overwrites the status with hard-frozen, whatever it was before.
    /// No operation unfreezes a hard-frozen account.
    pub fn hard_freeze(&mut self)
        requires
            old(self).wf(),
        ensures
            final(self).wf(),
            *final(self) == (CreditAccount { status: AccountStatus::HardFrozen, ..*old(self) }),
    {
        self.status = AccountStatus::HardFrozen;
    }
}

/// The stored set of credit accounts, one per owner. Stands for the slice
/// of the hosting ledger's record store that the credit program owns:
/// creation under an owner that already has an account is refused by the
/// store, not by account logic.
pub struct CreditLedger {
    pub accounts: Vec<CreditAccount>,
}

impl CreditLedger {
    /// Each owner holds at most one account, and every account meets its
    /// invariant.
    pub open spec fn wf(self) -> bool {
        &&& forall|i: int, j: int|
            0 <= i < j < self.accounts@.len() ==> (#[trigger] self.accounts@[i]).owner != (
            #[trigger] self.accounts@[j]).owner
        &&& forall|i: int| 0 <= i < self.accounts@.len() ==> (#[trigger] self.accounts@[i]).wf()
    }

    pub open spec fn contains_owner(self, owner: Id) -> bool {
        exists|i: int| 0 <= i < self.accounts@.len() && (#[trigger] self.accounts@[i]).owner == owner
    }

    pub fn new() -> (r: CreditLedger)
        ensures
            r.wf(),
            r.accounts@.len() == 0,
    {
        CreditLedger { accounts: Vec::new() }
    }

    /// Where the owner's account stands in the store, if anywhere.
    pub fn account_index(&self, owner: Id) -> (r: Option<usize>)
        ensures
            match r {
                Some(i) => i < self.accounts@.len() && self.accounts@[i as int].owner == owner,
                None => !self.contains_owner(owner),
            },
    {
        let mut i: usize = 0;
        while i < self.accounts.len()
            invariant
                i <= self.accounts@.len(),
                forall|j: int| 0 <= j < i ==> (#[trigger] self.accounts@[j]).owner != owner,
            decreases self.accounts@.len() - i,
        {
            if self.accounts[i].owner == owner {
                return Some(i);
            }
            i = i + 1;
        }
        None
    }

    /// Creates the owner's account in its fresh state. Refused when a
    /// record already exists for this owner: the store rejects duplicate
    /// creation under one derived address.
    pub fn open_account(&mut self, owner: Id) -> (r: Result<(), StoreError>)
        requires
            old(self).wf(),
        ensures
            final(self).wf(),
            final(self).contains_owner(owner),
            match r {
                Ok(()) => !old(self).contains_owner(owner)
                    && final(self).accounts@ == old(self).accounts@.push(CreditAccount::fresh(owner)),
                Err(e) => e == StoreError::AlreadyExists && old(self).contains_owner(owner)
                    && *final(self) == *old(self),
            },
    {
        match self.account_index(owner) {
            Some(i) => {
                proof {
                    assert(self.accounts@[i as int].owner == owner);
                }
                Err(StoreError::AlreadyExists)
            },
            None => {
                let ghost n = self.accounts@.len();
                self.accounts.push(
                    CreditAccount {
                        owner,
                        limit_usdc: 0,
                        used_usdc: 0,
                        health_factor_bps: 12000,
                        score: 0,
                        billing_cycle_day: 5,
                        status: AccountStatus::Active,
                    },
                );
                proof {
                    assert(self.accounts@[n as int].owner == owner);
                }
                Ok(())
            },
        }
    }
}

} // verus!
