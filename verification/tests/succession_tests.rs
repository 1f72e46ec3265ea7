use phoenix_seat_manager::error::SeatManagerError;
use phoenix_seat_manager::identity::Identity;
use phoenix_seat_manager::market::MarketStatus;
use phoenix_seat_manager::processor::change_market_fee_recipient::process_change_market_fee_recipient;
use phoenix_seat_manager::processor::change_market_status::process_change_market_status;
use phoenix_seat_manager::processor::change_seat_manager_authority::{
    process_claim_seat_manager_authority, process_name_successor,
};
use phoenix_seat_manager::processor::confirm_renounce_seat_manager_authority::process_confirm_renounce_seat_manager_authority;
use phoenix_seat_manager::processor::designated_market_maker::process_designated_market_maker;
use phoenix_seat_manager::processor::name_market_authority_successor::process_name_market_authority_successor;
use phoenix_seat_manager::seat_manager::SeatManager;

fn id(n: u64) -> Identity {
    Identity::new(n, 0, 0, 0)
}

fn record() -> SeatManager {
    SeatManager::new(id(100), id(1), Identity::default())
}

#[test]
fn test_name_successor_happy_path() {
    let mut sm = record();
    assert_eq!(process_name_successor(&mut sm, id(1), id(2)), Ok(()));
    assert_eq!(sm.successor, id(2));
    assert_eq!(sm.authority, id(1));
}

#[test]
fn test_name_successor_requires_authority() {
    let mut sm = record();
    assert_eq!(
        process_name_successor(&mut sm, id(3), id(2)),
        Err(SeatManagerError::MissingRequiredSignature)
    );
    assert_eq!(sm.successor, Identity::default());
}

#[test]
fn test_claim_seat_manager_authority_happy_path() {
    let mut sm = record();
    process_name_successor(&mut sm, id(1), id(2)).unwrap();
    assert_eq!(process_claim_seat_manager_authority(&mut sm, id(2)), Ok(()));
    assert_eq!(sm.authority, id(2));
    // the pending succession is cleared
    assert_eq!(sm.successor, Identity::default());
}

#[test]
fn test_claim_seat_manager_authority_requires_successor() {
    let mut sm = record();
    process_name_successor(&mut sm, id(1), id(2)).unwrap();
    assert_eq!(
        process_claim_seat_manager_authority(&mut sm, id(3)),
        Err(SeatManagerError::MissingRequiredSignature)
    );
    assert_eq!(sm.authority, id(1));
}

#[test]
fn test_confirm_renounce_success() {
    let mut sm = record();
    // initiate renunciation: name the null identity as successor
    process_name_successor(&mut sm, id(1), Identity::default()).unwrap();
    assert_eq!(
        process_confirm_renounce_seat_manager_authority(&mut sm, id(1)),
        Ok(())
    );
    assert_eq!(sm.authority, Identity::default());
    // every authority-gated operation is now unreachable for real signers
    assert_eq!(
        process_name_successor(&mut sm, id(1), id(2)),
        Err(SeatManagerError::MissingRequiredSignature)
    );
}

#[test]
fn test_confirm_renounce_fails_if_not_initiated() {
    let mut sm = record();
    process_name_successor(&mut sm, id(1), id(2)).unwrap();
    assert_eq!(
        process_confirm_renounce_seat_manager_authority(&mut sm, id(1)),
        Err(SeatManagerError::InvalidAccountData)
    );
    assert_eq!(sm.authority, id(1));
}

#[test]
fn test_confirm_renounce_fails_unauthorized_signer() {
    let mut sm = record();
    assert_eq!(
        process_confirm_renounce_seat_manager_authority(&mut sm, id(3)),
        Err(SeatManagerError::MissingRequiredSignature)
    );
    assert_eq!(sm.authority, id(1));
}

#[test]
fn test_renounce_race_rechecks_successor() {
    // a successor named between initiation and confirmation makes the
    // confirm step fail
    let mut sm = record();
    process_name_successor(&mut sm, id(1), Identity::default()).unwrap();
    process_name_successor(&mut sm, id(1), id(7)).unwrap();
    assert_eq!(
        process_confirm_renounce_seat_manager_authority(&mut sm, id(1)),
        Err(SeatManagerError::InvalidAccountData)
    );
    assert_eq!(sm.authority, id(1));
    assert_eq!(sm.successor, id(7));
}

#[test]
fn test_add_remove_maker_happy_path() {
    let mut sm = record();
    assert_eq!(
        process_designated_market_maker(&mut sm, id(1), id(7), true, false),
        Ok(0)
    );
    assert!(sm.contains(&id(7)));
    assert_eq!(
        process_designated_market_maker(&mut sm, id(1), id(7), true, true),
        Ok(0)
    );
    assert!(!sm.contains(&id(7)));
}

#[test]
fn test_add_maker_fails_if_trader_has_no_seat() {
    let mut sm = record();
    assert_eq!(
        process_designated_market_maker(&mut sm, id(1), id(7), false, false),
        Err(SeatManagerError::InvalidAccountData)
    );
    assert!(!sm.contains(&id(7)));
}

#[test]
fn test_add_remove_maker_requires_authority() {
    let mut sm = record();
    assert_eq!(
        process_designated_market_maker(&mut sm, id(2), id(7), true, false),
        Err(SeatManagerError::MissingRequiredSignature)
    );
    assert_eq!(
        process_designated_market_maker(&mut sm, id(2), id(7), true, true),
        Err(SeatManagerError::MissingRequiredSignature)
    );
}

#[test]
fn test_remove_absent_maker_fails() {
    let mut sm = record();
    assert_eq!(
        process_designated_market_maker(&mut sm, id(1), id(7), true, true),
        Err(SeatManagerError::InvalidAccountData)
    );
}

#[test]
fn test_change_market_status_parses_payload() {
    let sm = record();
    assert_eq!(
        process_change_market_status(&sm, id(1), &[3u8]),
        Ok(MarketStatus::Paused)
    );
    assert_eq!(
        process_change_market_status(&sm, id(2), &[3u8]),
        Err(SeatManagerError::MissingRequiredSignature)
    );
    assert_eq!(
        process_change_market_status(&sm, id(1), &[9u8]),
        Err(SeatManagerError::InvalidInstructionData)
    );
}

#[test]
fn test_name_market_authority_successor_parses_payload() {
    let sm = record();
    let mut payload = [0u8; 32];
    payload[0] = 42;
    assert_eq!(
        process_name_market_authority_successor(&sm, id(1), &payload),
        Ok(id(42))
    );
    assert_eq!(
        process_name_market_authority_successor(&sm, id(2), &payload),
        Err(SeatManagerError::MissingRequiredSignature)
    );
    assert_eq!(
        process_name_market_authority_successor(&sm, id(1), &payload[..31]),
        Err(SeatManagerError::InvalidInstructionData)
    );
}

#[test]
fn test_change_market_fee_recipient_collects_pending_fees_first() {
    let sm = record();
    let plan = process_change_market_fee_recipient(&sm, id(1), 25).unwrap();
    assert!(plan.collect_fees_first);
    let plan2 = process_change_market_fee_recipient(&sm, id(1), 0).unwrap();
    assert!(!plan2.collect_fees_first);
    assert_eq!(
        process_change_market_fee_recipient(&sm, id(2), 25),
        Err(SeatManagerError::MissingRequiredSignature)
    );
}
