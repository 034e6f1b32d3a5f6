use bnpl_ledger::base::Id;
use bnpl_ledger::notes::{NoteState, NoteStatus};
use bnpl_ledger::pool::{advance, guarantee_settle, init_pool, PoolError};

fn issued_note(merchant: Id) -> NoteState {
    NoteState {
        note_id: Id::new(22, 0, 0, 0),
        merchant,
        beneficiary: merchant,
        buyer: Id::new(24, 0, 0, 0),
        amount_usdc: 400,
        due_ts: 1_700_000_000,
        status: NoteStatus::Issued,
        order_id: Id::new(25, 0, 0, 0),
        index: 2,
    }
}

#[test]
fn init_pool_starts_with_empty_reserve() {
    let admin = Id::new(1, 0, 0, 0);
    let pool = init_pool(admin);
    assert_eq!(pool.usdc_vault, Id::new(0, 0, 0, 0));
    assert_eq!(pool.guarantee_reserve_usdc, 0);
    assert_eq!(pool.admin, admin);
}

#[test]
fn replenish_by_admin_grows_the_reserve() {
    let admin = Id::new(1, 0, 0, 0);
    let mut pool = init_pool(admin);
    let ev = pool.replenish_reserve(admin, 500).unwrap();
    assert_eq!(ev.amount, 500);
    assert_eq!(pool.guarantee_reserve_usdc, 500);
    pool.replenish_reserve(admin, 250).unwrap();
    assert_eq!(pool.guarantee_reserve_usdc, 750);
}

#[test]
fn replenish_by_non_admin_is_refused() {
    let admin = Id::new(1, 0, 0, 0);
    let outsider = Id::new(9, 0, 0, 0);
    let mut pool = init_pool(admin);
    pool.replenish_reserve(admin, 500).unwrap();
    assert_eq!(
        pool.replenish_reserve(outsider, 100),
        Err(PoolError::Unauthorized)
    );
    assert_eq!(pool.guarantee_reserve_usdc, 500);
}

#[test]
fn replenish_clamps_at_the_largest_reserve() {
    let admin = Id::new(1, 0, 0, 0);
    let mut pool = init_pool(admin);
    pool.replenish_reserve(admin, u64::MAX).unwrap();
    assert_eq!(pool.guarantee_reserve_usdc, u64::MAX);
    pool.replenish_reserve(admin, 1).unwrap();
    assert_eq!(pool.guarantee_reserve_usdc, u64::MAX);
}

#[test]
fn advance_reassigns_the_beneficiary_to_the_pool() {
    let merchant = Id::new(23, 0, 0, 0);
    let pool_id = Id::new(21, 0, 0, 0);
    let mut note = issued_note(merchant);
    let ev = advance(pool_id, &mut note);
    assert_eq!(note.beneficiary, pool_id);
    assert_eq!(note.merchant, merchant);
    assert_eq!(note.amount_usdc, 400);
    assert_eq!(ev.note, note.note_id);
    assert_eq!(ev.gross, 400);
    assert_eq!(ev.discount, 0);
    assert_eq!(ev.net, 400);
}

#[test]
fn guarantee_settle_after_advance_keeps_the_pool_as_beneficiary() {
    let merchant = Id::new(23, 0, 0, 0);
    let pool_id = Id::new(21, 0, 0, 0);
    let mut note = issued_note(merchant);
    advance(pool_id, &mut note);
    let after_advance = note;
    let ev = guarantee_settle(pool_id, &mut note);
    assert_eq!(note, after_advance);
    assert_eq!(ev.note, note.note_id);
    assert_eq!(ev.amount, 400);
}

#[test]
fn guarantee_settle_alone_reassigns_the_beneficiary() {
    let merchant = Id::new(23, 0, 0, 0);
    let pool_id = Id::new(21, 0, 0, 0);
    let mut note = issued_note(merchant);
    let ev = guarantee_settle(pool_id, &mut note);
    assert_eq!(note.beneficiary, pool_id);
    assert_eq!(ev.amount, 400);
}
