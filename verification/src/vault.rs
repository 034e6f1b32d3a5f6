//! The collateral vault: per-(owner, asset) collateral positions and the
//! vault-wide configuration, price records, and per-asset parameter
//! records.
//!
//! Moving the asset itself between custody accounts is the hosting
//! runtime's generic value-transfer primitive and happens outside this
//! library; these operations keep the book of record for each position.

use vstd::prelude::*;

use crate::base::Id;

verus! {

/// Vault-wide configuration: who administers the vault, and the slippage
/// bound a future liquidation flow must respect.
#[derive(Clone, Copy, PartialEq, Eq, Structural, Debug)]
pub struct VaultConfig {
    pub admin: Id,
    pub slippage_bps_max: u32,
}

/// One vault record per accepted asset.
#[derive(Clone, Copy, PartialEq, Eq, Structural, Debug)]
pub struct Vault {
    pub mint: Id,
}

/// One collateral position per (owner, asset).
#[derive(Clone, Copy, PartialEq, Eq, Structural, Debug)]
pub struct Position {
    pub owner: Id,
    pub mint: Id,
    pub amount: u64,
    pub ltv_bps: u32,
    pub valuation_usdc: u64,
}

/// A per-class parameter record for locally parameterized assets.
#[derive(Clone, Copy, PartialEq, Eq, Structural, Debug)]
pub struct PumpClass {
    pub admin: Id,
}

/// A per-asset parameter record, linking the asset to its class record.
#[derive(Clone, Copy, PartialEq, Eq, Structural, Debug)]
pub struct PumpToken {
    pub mint: Id,
    pub class: Id,
}

/// A posted price for one asset, in millionths of a stable-value unit,
/// with the timestamp it was posted at.
#[derive(Clone, Copy, PartialEq, Eq, Structural, Debug)]
pub struct PriceAccount {
    pub mint: Id,
    pub price_usdc_6: u64,
    pub last_ts: i64,
}

/// The vault's error kinds. The risk-gate kinds (`HfTooLowForWithdraw`,
/// `OracleStale`, `SlippageExceeded`) are declared for the guards a
/// future liquidation and withdrawal policy would raise; no current
/// operation raises them, which is an open policy question.
#[derive(Clone, Copy, PartialEq, Eq, Structural, Debug)]
pub enum ErrorCode {
    Unauthorized,
    InsufficientAmount,
    HfTooLowForWithdraw,
    OracleStale,
    SlippageExceeded,
}

/// Returned by `open_position_pump`.
#[derive(Clone, Copy, PartialEq, Eq, Structural, Debug)]
pub struct PositionOpened {
    pub owner: Id,
    pub mint: Id,
    pub ltv_bps: u32,
    pub valuation_usdc: u64,
}

/// Returned by a successful `deposit_pump`.
#[derive(Clone, Copy, PartialEq, Eq, Structural, Debug)]
pub struct CollateralDeposited {
    pub owner: Id,
    pub mint: Id,
    pub amount: u64,
}

/// Returned by a successful `withdraw_pump`.
#[derive(Clone, Copy, PartialEq, Eq, Structural, Debug)]
pub struct CollateralWithdrawn {
    pub owner: Id,
    pub mint: Id,
    pub amount: u64,
}

/// Creates the vault configuration, recording the signer as its admin
/// and fixing the slippage bound for a future liquidation flow.
pub fn init_vault_config(admin: Id, slippage_bps_max: u32) -> (cfg: VaultConfig)
    ensures
        cfg == (VaultConfig { admin: admin, slippage_bps_max: slippage_bps_max }),
{
    VaultConfig { admin, slippage_bps_max }
}

/// Creates the vault record for one accepted asset.
pub fn init_vault_for_mint(mint: Id) -> (v: Vault)
    ensures
        v == (Vault { mint: mint }),
{
    Vault { mint }
}

/// Writes the class-wide parameter record. Only the vault admin may do
/// so.
pub fn set_pump_class_params(cfg: &VaultConfig, signer: Id) -> (r: Result<PumpClass, ErrorCode>)
    ensures
        match r {
            Ok(p) => signer == cfg.admin && p == (PumpClass { admin: signer }),
            Err(e) => signer != cfg.admin && e == ErrorCode::Unauthorized,
        },
{
    if signer != cfg.admin {
        return Err(ErrorCode::Unauthorized);
    }
    Ok(PumpClass { admin: signer })
}

/// Writes the per-asset parameter record, linking the asset to the given
/// class record. No identity is checked against the vault admin in the
/// current design.
pub fn set_pump_token_params(mint: Id, class: Id) -> (t: PumpToken)
    ensures
        t == (PumpToken { mint: mint, class: class }),
{
    PumpToken { mint, class }
}

/// Posts a price for one asset. The runtime requires a signer, but no
/// identity is checked against the vault admin in the current design.
pub fn set_price(mint: Id, price_usdc_6: u64, ts: i64) -> (pa: PriceAccount)
    ensures
        pa == (PriceAccount { mint: mint, price_usdc_6: price_usdc_6, last_ts: ts }),
{
    PriceAccount { mint, price_usdc_6, last_ts: ts }
}

/// Opens the owner's position in one asset, holding nothing yet.
pub fn open_position_pump(owner: Id, mint: Id, ltv_bps: u32, valuation_usdc: u64) -> (r: (
    Position,
    PositionOpened,
))
    ensures
        r.0 == (Position {
            owner: owner,
            mint: mint,
            amount: 0,
            ltv_bps: ltv_bps,
            valuation_usdc: valuation_usdc,
        }),
        r.1 == (PositionOpened {
            owner: owner,
            mint: mint,
            ltv_bps: ltv_bps,
            valuation_usdc: valuation_usdc,
        }),
{
    (
        Position { owner, mint, amount: 0, ltv_bps, valuation_usdc },
        PositionOpened { owner, mint, ltv_bps, valuation_usdc },
    )
}

/// Books a deposit into the position: the held amount grows by `amount`,
/// clamped at the largest representable balance, and the valuation and
/// loan-to-value ratio are overwritten where new figures are handed in.
/// Only the position's owner may deposit.
pub fn deposit_pump(
    pos: &mut Position,
    signer: Id,
    amount: u64,
    new_valuation_usdc: Option<u64>,
    new_ltv_bps: Option<u32>,
) -> (r: Result<CollateralDeposited, ErrorCode>)
    ensures
        match r {
            Ok(ev) => signer == old(pos).owner && *final(pos) == (Position {
                amount: (if old(pos).amount + amount > u64::MAX {
                    u64::MAX
                } else {
                    (old(pos).amount + amount) as u64
                }),
                valuation_usdc: (match new_valuation_usdc {
                    Some(v) => v,
                    None => old(pos).valuation_usdc,
                }),
                ltv_bps: (match new_ltv_bps {
                    Some(l) => l,
                    None => old(pos).ltv_bps,
                }),
                ..*old(pos)
            }) && ev == (CollateralDeposited {
                owner: old(pos).owner,
                mint: old(pos).mint,
                amount: amount,
            }),
            Err(e) => signer != old(pos).owner && e == ErrorCode::Unauthorized && *final(pos)
                == *old(pos),
        },
        final(pos).amount >= old(pos).amount,
{
    if signer != pos.owner {
        return Err(ErrorCode::Unauthorized);
    }
    pos.amount = pos.amount.saturating_add(amount);
    if let Some(v) = new_valuation_usdc {
        pos.valuation_usdc = v;
    }
    if let Some(l) = new_ltv_bps {
        pos.ltv_bps = l;
    }
    Ok(CollateralDeposited { owner: pos.owner, mint: pos.mint, amount })
}

/// Books a withdrawal from the position: refused unless the position
/// holds at least the requested amount, and only for the position's
/// owner. A health-factor gate on withdrawal is declared
/// (`HfTooLowForWithdraw`) but not yet wired to any guard; whether to
/// enforce it is an open policy question.
pub fn withdraw_pump(pos: &mut Position, signer: Id, amount: u64) -> (r: Result<
    CollateralWithdrawn,
    ErrorCode,
>)
    ensures
        r is Ok ==> old(pos).amount >= amount,
        match r {
            Ok(ev) => signer == old(pos).owner && old(pos).amount >= amount && *final(pos)
                == (Position { amount: (old(pos).amount - amount) as u64, ..*old(pos) }) && ev
                == (CollateralWithdrawn {
                owner: old(pos).owner,
                mint: old(pos).mint,
                amount: amount,
            }),
            Err(e) => *final(pos) == *old(pos) && e == (if signer != old(pos).owner {
                ErrorCode::Unauthorized
            } else {
                ErrorCode::InsufficientAmount
            }) && (signer != old(pos).owner || old(pos).amount < amount),
        },
{
    if signer != pos.owner {
        return Err(ErrorCode::Unauthorized);
    }
    if pos.amount < amount {
        return Err(ErrorCode::InsufficientAmount);
    }
    pos.amount = pos.amount - amount;
    Ok(CollateralWithdrawn { owner: pos.owner, mint: pos.mint, amount })
}

} // verus!
