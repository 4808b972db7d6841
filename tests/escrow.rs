use agent_ledger::{
    AccountId, EscrowContract, EscrowError, EscrowParty, EscrowStatus, EscrowTransfer,
};

fn account(name: &str) -> AccountId {
    AccountId::new(name.as_bytes().to_vec())
}

fn open_trade(book: &mut EscrowContract, now: u64) -> u64 {
    let (id, _) = book.create_escrow(
        &account("GBUYER"),
        &account("GSELLER"),
        100000,
        &account("CTOKEN"),
        now + 86400,
        now,
    );
    id
}

#[test]
fn test_create_escrow() {
    let mut book = EscrowContract::new();
    let escrow_id = open_trade(&mut book, 0);

    let escrow = book.get_escrow(escrow_id).unwrap();
    assert_eq!(escrow.status, EscrowStatus::Funded);
}

#[test]
fn test_successful_trade() {
    let mut book = EscrowContract::new();
    let escrow_id = open_trade(&mut book, 0);

    book.confirm_delivery(escrow_id, &account("GBUYER")).unwrap();
    let status = book.release_payment(escrow_id).unwrap().status;

    assert_eq!(status, EscrowStatus::Completed);
}

#[test]
fn test_refund_on_deadline() {
    let mut book = EscrowContract::new();
    let start: u64 = 0;
    let escrow_id = open_trade(&mut book, start);

    let status = book.refund(escrow_id, start + 86401).unwrap().status;
    assert_eq!(status, EscrowStatus::Refunded);
}

#[test]
fn creation_locks_the_buyers_funds() {
    let mut book = EscrowContract::new();
    let (first, lock) = book.create_escrow(
        &account("GBUYER"),
        &account("GSELLER"),
        2500,
        &account("CTOKEN"),
        90,
        10,
    );
    assert_eq!(first, 0);
    assert_eq!(lock, EscrowTransfer { from: EscrowParty::Buyer, to: EscrowParty::Custody, amount: 2500 });
    assert_eq!(open_trade(&mut book, 0), 1);
    let e = book.get_escrow(first).unwrap();
    assert_eq!(e.delivery_deadline, 90);
    assert_eq!(e.created_at, 10);
    assert_eq!(e.amount, 2500);
}

#[test]
fn release_pays_the_seller() {
    let mut book = EscrowContract::new();
    let id = open_trade(&mut book, 0);
    assert_eq!(book.release_payment(id).unwrap_err(), EscrowError::DeliveryNotConfirmed);
    assert_eq!(book.confirm_delivery(id, &account("GSELLER")).unwrap_err(), EscrowError::Unauthorized);
    assert_eq!(book.confirm_delivery(id, &account("GBUYER")).unwrap().transfer, None);
    assert_eq!(book.confirm_delivery(id, &account("GBUYER")).unwrap_err(), EscrowError::NotFunded);
    let step = book.release_payment(id).unwrap();
    assert_eq!(
        step.transfer,
        Some(EscrowTransfer { from: EscrowParty::Custody, to: EscrowParty::Seller, amount: 100000 })
    );
    assert_eq!(book.release_payment(id).unwrap_err(), EscrowError::DeliveryNotConfirmed);
    assert_eq!(book.refund(id, 1_000_000).unwrap_err(), EscrowError::CannotRefund);
    assert_eq!(book.dispute(id, &account("GBUYER")).unwrap_err(), EscrowError::CannotDispute);
}

#[test]
fn refund_waits_for_the_deadline_or_a_dispute() {
    let mut book = EscrowContract::new();
    let id = open_trade(&mut book, 0);
    assert_eq!(book.refund(id, 86400).unwrap_err(), EscrowError::CannotRefund);
    assert_eq!(book.dispute(id, &account("GOTHER")).unwrap_err(), EscrowError::Unauthorized);
    assert_eq!(book.dispute(id, &account("GSELLER")).unwrap().status, EscrowStatus::Disputed);
    let step = book.refund(id, 5).unwrap();
    assert_eq!(step.status, EscrowStatus::Refunded);
    assert_eq!(
        step.transfer,
        Some(EscrowTransfer { from: EscrowParty::Custody, to: EscrowParty::Buyer, amount: 100000 })
    );
    assert_eq!(book.refund(id, 5).unwrap_err(), EscrowError::CannotRefund);
}

#[test]
fn delivered_trade_is_not_refunded_after_deadline() {
    let mut book = EscrowContract::new();
    let id = open_trade(&mut book, 0);
    book.confirm_delivery(id, &account("GBUYER")).unwrap();
    assert_eq!(book.refund(id, 86401).unwrap_err(), EscrowError::CannotRefund);
}

#[test]
fn unknown_trades_are_not_found() {
    let mut book = EscrowContract::new();
    assert_eq!(book.get_escrow(0).unwrap_err(), EscrowError::EscrowNotFound);
    assert_eq!(book.confirm_delivery(0, &account("GBUYER")).unwrap_err(), EscrowError::EscrowNotFound);
    assert_eq!(book.release_payment(3).unwrap_err(), EscrowError::EscrowNotFound);
    assert_eq!(book.dispute(0, &account("GBUYER")).unwrap_err(), EscrowError::EscrowNotFound);
    assert_eq!(book.refund(0, 9).unwrap_err(), EscrowError::EscrowNotFound);
}
