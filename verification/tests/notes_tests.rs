use bnpl_ledger::base::{Id, StoreError};
use bnpl_ledger::notes::{NoteRegistry, NoteState, NoteStatus};

#[test]
fn mint_note_issues_to_the_merchant() {
    let note_id = Id::new(10, 0, 0, 0);
    let order = Id::new(11, 0, 0, 0);
    let buyer = Id::new(12, 0, 0, 0);
    let merchant = Id::new(13, 0, 0, 0);
    let mut reg = NoteRegistry::new();
    let ev = reg
        .mint_note(note_id, order, 0, buyer, merchant, 250, 1_700_000_000)
        .unwrap();
    assert_eq!(ev.note, note_id);
    assert_eq!(ev.buyer, buyer);
    assert_eq!(ev.merchant, merchant);
    assert_eq!(ev.amount_usdc, 250);
    assert_eq!(ev.due_ts, 1_700_000_000);
    assert_eq!(ev.index, 0);
    let note = &reg.notes[0];
    assert_eq!(note.note_id, note_id);
    assert_eq!(note.merchant, merchant);
    assert_eq!(note.beneficiary, merchant);
    assert_eq!(note.buyer, buyer);
    assert_eq!(note.amount_usdc, 250);
    assert_eq!(note.due_ts, 1_700_000_000);
    assert_eq!(note.status, NoteStatus::Issued);
    assert_eq!(note.order_id, order);
    assert_eq!(note.index, 0);
}

#[test]
fn scenario_duplicate_mint_is_refused() {
    let order_z = Id::new(11, 0, 0, 0);
    let note_id = Id::new(10, 0, 0, 0);
    let buyer = Id::new(12, 0, 0, 0);
    let merchant = Id::new(13, 0, 0, 0);
    let mut reg = NoteRegistry::new();
    assert!(reg
        .mint_note(note_id, order_z, 0, buyer, merchant, 100, 1_700_000_000)
        .is_ok());
    assert_eq!(
        reg.mint_note(note_id, order_z, 0, buyer, merchant, 100, 1_700_000_000),
        Err(StoreError::AlreadyExists)
    );
    assert_eq!(reg.notes.len(), 1);
}

#[test]
fn same_order_different_index_mints() {
    let order = Id::new(11, 0, 0, 0);
    let buyer = Id::new(12, 0, 0, 0);
    let merchant = Id::new(13, 0, 0, 0);
    let mut reg = NoteRegistry::new();
    assert!(reg
        .mint_note(Id::new(10, 0, 0, 0), order, 0, buyer, merchant, 100, 1)
        .is_ok());
    assert!(reg
        .mint_note(Id::new(20, 0, 0, 0), order, 1, buyer, merchant, 100, 2)
        .is_ok());
    assert_eq!(reg.notes.len(), 2);
    assert_eq!(reg.note_index(order, 0), Some(0));
    assert_eq!(reg.note_index(order, 1), Some(1));
    assert_eq!(reg.note_index(order, 2), None);
}

#[test]
fn declared_note_transitions_do_nothing_yet() {
    let mut note = NoteState {
        note_id: Id::new(10, 0, 0, 0),
        merchant: Id::new(13, 0, 0, 0),
        beneficiary: Id::new(13, 0, 0, 0),
        buyer: Id::new(12, 0, 0, 0),
        amount_usdc: 250,
        due_ts: 1,
        status: NoteStatus::Issued,
        order_id: Id::new(11, 0, 0, 0),
        index: 0,
    };
    let before = note;
    note.mark_paid();
    assert_eq!(note, before);
    note.assign_beneficiary(Id::new(40, 0, 0, 0));
    assert_eq!(note, before);
}
