use phoenix_seat_manager::error::SeatManagerError;
use phoenix_seat_manager::escrow::{apply_deposit, apply_refund};
use phoenix_seat_manager::identity::Identity;
use phoenix_seat_manager::market::MarketSizeParams;
use phoenix_seat_manager::processor::claim_market_authority::process_claim_market_authority;
use phoenix_seat_manager::processor::claim_seat::process_claim_seat;
use phoenix_seat_manager::seat_manager::SeatManager;

fn id(n: u64) -> Identity {
    Identity::new(n, 0, 0, 0)
}

const RENT: u64 = 1_400_000;

fn good_size() -> MarketSizeParams {
    MarketSizeParams { bids_size: 512, asks_size: 512, num_seats: 512 + 512 + 1 + 128 }
}

#[test]
fn test_claim_market_authority_bootstrap_exact_funding() {
    // bootstrap with two registered traders and the escrow funded with
    // exactly two deposits of two rents each succeeds
    let mut record: Option<SeatManager> = None;
    let r = process_claim_market_authority(
        &mut record,
        id(100),
        good_size(),
        id(50),
        id(60),
        id(60),
        id(1),
        2,
        RENT,
        2 * 2 * RENT,
    );
    assert_eq!(r, Ok(()));
    let sm = record.unwrap();
    assert_eq!(sm.market, id(100));
    assert_eq!(sm.authority, id(1));
    assert_eq!(sm.successor, id(1));
    assert_eq!(sm.num_makers, 0);
}

#[test]
fn test_claim_market_authority_one_lamport_short_fails() {
    // funded with one unit less than the required reserve it fails and
    // no record is created
    let mut record: Option<SeatManager> = None;
    let r = process_claim_market_authority(
        &mut record,
        id(100),
        good_size(),
        id(50),
        id(60),
        id(60),
        id(1),
        2,
        RENT,
        2 * 2 * RENT - 1,
    );
    assert_eq!(r, Err(SeatManagerError::InsufficientFunds));
    assert!(record.is_none());
}

#[test]
fn test_claim_market_authority_insufficient_escrow_leaves_record_unchanged() {
    // an existing record survives a failed re-claim untouched
    let mut record = Some(SeatManager::new(id(100), id(1), id(1)));
    record.as_mut().unwrap().insert(&id(7));
    let r = process_claim_market_authority(
        &mut record,
        id(100),
        good_size(),
        id(50),
        id(60),
        id(60),
        id(1),
        3,
        RENT,
        RENT, // far below 3 * 2 * RENT
    );
    assert_eq!(r, Err(SeatManagerError::InsufficientFunds));
    let sm = record.unwrap();
    assert_eq!(sm.num_makers, 1);
    assert!(sm.contains(&id(7)));
}

#[test]
fn test_claim_market_authority_wrong_size_params() {
    let mut record: Option<SeatManager> = None;
    let bad = MarketSizeParams { bids_size: 512, asks_size: 512, num_seats: 512 + 512 + 128 };
    let r = process_claim_market_authority(
        &mut record,
        id(100),
        bad,
        id(50),
        id(60),
        id(60),
        id(1),
        0,
        RENT,
        0,
    );
    assert_eq!(r, Err(SeatManagerError::InvalidAccountData));
    assert!(record.is_none());
}

#[test]
fn test_claim_market_authority_wrong_successor_or_already_claimed() {
    let mut record: Option<SeatManager> = None;
    // market's pending successor is not the delegate's derived key
    let r = process_claim_market_authority(
        &mut record,
        id(100),
        good_size(),
        id(50),
        id(61),
        id(60),
        id(1),
        0,
        RENT,
        0,
    );
    assert_eq!(r, Err(SeatManagerError::InvalidArgument));
    // market already administered by the delegate
    let r2 = process_claim_market_authority(
        &mut record,
        id(100),
        good_size(),
        id(60),
        id(60),
        id(60),
        id(1),
        0,
        RENT,
        0,
    );
    assert_eq!(r2, Err(SeatManagerError::InvalidArgument));
    assert!(record.is_none());
}

#[test]
fn test_claim_market_authority_reclaim_clears_makers() {
    let mut record = Some(SeatManager::new(id(100), id(1), id(9)));
    record.as_mut().unwrap().insert(&id(7));
    record.as_mut().unwrap().insert(&id(8));
    let r = process_claim_market_authority(
        &mut record,
        id(100),
        good_size(),
        id(50),
        id(60),
        id(60),
        id(1),
        0,
        RENT,
        0,
    );
    assert_eq!(r, Ok(()));
    let sm = record.unwrap();
    assert_eq!(sm.num_makers, 0);
    assert!(!sm.contains(&id(7)));
    assert!(!sm.contains(&id(8)));
    assert_eq!(sm.authority, id(1));
    assert_eq!(sm.successor, id(9));
}

#[test]
fn test_claim_market_authority_reclaim_requires_current_authority() {
    let mut record = Some(SeatManager::new(id(100), id(1), id(1)));
    let r = process_claim_market_authority(
        &mut record,
        id(100),
        good_size(),
        id(50),
        id(60),
        id(60),
        id(2), // not the record's authority
        0,
        RENT,
        0,
    );
    assert_eq!(r, Err(SeatManagerError::InvalidArgument));
    assert_eq!(record.unwrap().authority, id(1));
}

#[test]
fn test_claim_seat_already_approved_is_free_noop() {
    // an approved seat succeeds immediately, with no deposit taken,
    // whoever asks
    let plan = process_claim_seat(id(1), id(99), false, false, true, true, RENT).unwrap();
    assert!(!plan.request_seat);
    assert_eq!(plan.deposit_lamports, 0);
    assert!(!plan.approve_seat);
}

#[test]
fn test_claim_seat_self_service_requires_trader_signature() {
    let r = process_claim_seat(id(1), id(99), false, false, false, false, RENT);
    assert_eq!(r, Err(SeatManagerError::MissingRequiredSignature));
    let plan = process_claim_seat(id(1), id(99), true, false, false, false, RENT).unwrap();
    assert!(plan.request_seat);
    assert_eq!(plan.deposit_lamports, 2 * RENT);
    assert!(plan.approve_seat);
}

#[test]
fn test_claim_seat_authorized_requires_authority_payer() {
    let r = process_claim_seat(id(1), id(99), false, true, false, false, RENT);
    assert_eq!(r, Err(SeatManagerError::MissingRequiredSignature));
    let plan = process_claim_seat(id(1), id(1), false, true, false, false, RENT).unwrap();
    assert_eq!(plan.deposit_lamports, 2 * RENT);
}

#[test]
fn test_claim_seat_existing_unapproved_seat_not_rerequested() {
    let plan = process_claim_seat(id(1), id(99), true, false, true, false, RENT).unwrap();
    assert!(!plan.request_seat);
    assert_eq!(plan.deposit_lamports, 2 * RENT);
    assert!(plan.approve_seat);
}

#[test]
fn test_escrow_deposit_and_refund_accounting() {
    let (escrow, payer) = apply_deposit(10, 3_000_000, 2 * RENT).unwrap();
    assert_eq!(escrow, 10 + 2 * RENT);
    assert_eq!(payer, 3_000_000 - 2 * RENT);
    assert_eq!(
        apply_deposit(10, 2 * RENT - 1, 2 * RENT),
        Err(SeatManagerError::InsufficientFunds)
    );
    let (escrow2, trader) = apply_refund(escrow, payer, 2 * RENT).unwrap();
    assert_eq!(escrow2, 10);
    assert_eq!(trader, 3_000_000);
    assert_eq!(
        apply_refund(5, 0, 6),
        Err(SeatManagerError::InsufficientFunds)
    );
}
