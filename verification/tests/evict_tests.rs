use phoenix_seat_manager::error::SeatManagerError;
use phoenix_seat_manager::identity::Identity;
use phoenix_seat_manager::market::TraderState;
use phoenix_seat_manager::processor::evict_seat::{
    get_trader_and_signer_refund_amounts, process_evict_seat, EvictCandidate, TokenAccountState,
};
use phoenix_seat_manager::seat_manager::SeatManager;

fn id(n: u64) -> Identity {
    Identity::new(n, 0, 0, 0)
}

const RENT: u64 = 1_400_000;

fn state(base_locked: u64, quote_locked: u64, base_free: u64, quote_free: u64) -> TraderState {
    TraderState {
        quote_lots_locked: quote_locked,
        quote_lots_free: quote_free,
        base_lots_locked: base_locked,
        base_lots_free: base_free,
    }
}

fn intact_account() -> TokenAccountState {
    TokenAccountState::new(true, true)
}

fn candidate(trader: Identity, ts: Option<TraderState>) -> EvictCandidate {
    EvictCandidate {
        trader,
        trader_state: ts,
        base_token_account: intact_account(),
        quote_token_account: intact_account(),
        base_backup_supplied: false,
        quote_backup_supplied: false,
    }
}

fn record_with_authority(authority: Identity) -> SeatManager {
    SeatManager::new(id(100), authority, authority)
}

#[test]
fn test_evict_authority_evicts_all_unlocked() {
    // the authority may evict any seat without locked lots, in one batch
    let record = record_with_authority(id(1));
    let cands = vec![
        candidate(id(10), Some(state(0, 0, 5, 0))),
        candidate(id(11), Some(state(0, 0, 0, 0))),
        candidate(id(12), Some(state(0, 0, 0, 7))),
    ];
    let actions = process_evict_seat(&record, id(1), false, RENT, &cands).unwrap();
    assert_eq!(actions.len(), 3);
    assert_eq!(actions[0].trader, id(10));
    assert_eq!(actions[1].trader, id(11));
    assert_eq!(actions[2].trader, id(12));
}

#[test]
fn test_evict_authority_skips_locked_seats() {
    let record = record_with_authority(id(1));
    let cands = vec![
        candidate(id(10), Some(state(1, 0, 0, 0))),
        candidate(id(11), Some(state(0, 2, 0, 0))),
        candidate(id(12), Some(state(0, 0, 0, 0))),
    ];
    let actions = process_evict_seat(&record, id(1), false, RENT, &cands).unwrap();
    assert_eq!(actions.len(), 1);
    assert_eq!(actions[0].trader, id(12));
}

#[test]
fn test_evict_no_privilege_evicts_nothing_with_balances() {
    // not the authority, market not full: every candidate with any
    // balance is skipped
    let record = record_with_authority(id(1));
    let cands = vec![
        candidate(id(10), Some(state(0, 0, 5, 0))),
        candidate(id(11), Some(state(3, 0, 0, 0))),
    ];
    let actions = process_evict_seat(&record, id(2), false, RENT, &cands).unwrap();
    assert_eq!(actions.len(), 0);
}

#[test]
fn test_evict_no_privilege_cleans_empty_seats() {
    // empty seats may be cleaned up by anyone, in any number
    let record = record_with_authority(id(1));
    let cands = vec![
        candidate(id(10), Some(state(0, 0, 0, 0))),
        candidate(id(11), Some(state(0, 0, 0, 0))),
    ];
    let actions = process_evict_seat(&record, id(2), false, RENT, &cands).unwrap();
    assert_eq!(actions.len(), 2);
}

#[test]
fn test_evict_seat_permissionless_succeeds_when_full_and_only_evicts_one() {
    // market at capacity, evictor is not the authority: the first
    // eligible non-empty seat is evicted and the batch stops, leaving
    // a later eligible empty seat alone
    let record = record_with_authority(id(1));
    let cands = vec![
        candidate(id(10), Some(state(1, 0, 0, 0))), // locked: skipped
        candidate(id(11), Some(state(0, 0, 4, 0))), // non-empty, unlocked: evicted
        candidate(id(12), Some(state(0, 0, 0, 0))), // empty: not reached
    ];
    let actions = process_evict_seat(&record, id(2), true, RENT, &cands).unwrap();
    assert_eq!(actions.len(), 1);
    assert_eq!(actions[0].trader, id(11));
}

#[test]
fn test_evict_seat_fails_on_designated_market_maker() {
    // a registered maker is eviction-immune and silently skipped
    let mut record = record_with_authority(id(1));
    record.insert(&id(10));
    let cands = vec![
        candidate(id(10), Some(state(0, 0, 0, 0))),
        candidate(id(11), Some(state(0, 0, 0, 0))),
    ];
    let actions = process_evict_seat(&record, id(1), false, RENT, &cands).unwrap();
    assert_eq!(actions.len(), 1);
    assert_eq!(actions[0].trader, id(11));
}

#[test]
fn test_evict_skips_unregistered_trader() {
    let record = record_with_authority(id(1));
    let cands = vec![candidate(id(10), None)];
    let actions = process_evict_seat(&record, id(1), false, RENT, &cands).unwrap();
    assert_eq!(actions.len(), 0);
}

#[test]
fn test_evict_seat_refunds_claim_seat_deposit() {
    // intact, trader-owned token accounts: the trader gets the whole
    // deposit of two rents back, the evictor nothing
    let record = record_with_authority(id(1));
    let cands = vec![candidate(id(10), Some(state(0, 0, 0, 0)))];
    let actions = process_evict_seat(&record, id(1), false, RENT, &cands).unwrap();
    assert_eq!(actions[0].trader_refund, 2 * RENT);
    assert_eq!(actions[0].signer_refund, 0);
    assert!(!actions[0].create_base_token_account);
    assert!(!actions[0].use_base_backup);
}

#[test]
fn test_evict_seat_no_refunds_if_trader_closes_ata() {
    // closed (uninitialized) token accounts: the escrow pays for their
    // re-creation and nobody is refunded
    let record = record_with_authority(id(1));
    let mut c = candidate(id(10), Some(state(0, 0, 0, 0)));
    c.base_token_account = TokenAccountState::new(false, false);
    c.quote_token_account = TokenAccountState::new(false, false);
    let actions = process_evict_seat(&record, id(1), false, RENT, &vec![c]).unwrap();
    assert_eq!(actions[0].trader_refund, 0);
    assert_eq!(actions[0].signer_refund, 0);
    assert!(actions[0].create_base_token_account);
    assert!(actions[0].create_quote_token_account);
}

#[test]
fn test_evict_seat_change_ata_owners_uses_backup_token_accounts() {
    // reassigned owners: refunds go to the evictor and the sweep is
    // redirected to the supplied backup accounts
    let record = record_with_authority(id(1));
    let mut c = candidate(id(10), Some(state(0, 0, 0, 0)));
    c.base_token_account = TokenAccountState::new(true, false);
    c.quote_token_account = TokenAccountState::new(true, false);
    c.base_backup_supplied = true;
    c.quote_backup_supplied = true;
    let actions = process_evict_seat(&record, id(1), false, RENT, &vec![c]).unwrap();
    assert_eq!(actions[0].trader_refund, 0);
    assert_eq!(actions[0].signer_refund, 2 * RENT);
    assert!(actions[0].use_base_backup);
    assert!(actions[0].use_quote_backup);
}

#[test]
fn test_evict_missing_backup_aborts_batch() {
    let record = record_with_authority(id(1));
    let mut c = candidate(id(10), Some(state(0, 0, 0, 0)));
    c.base_token_account = TokenAccountState::new(true, false);
    c.base_backup_supplied = false;
    let r = process_evict_seat(&record, id(1), false, RENT, &vec![c]);
    assert_eq!(r, Err(SeatManagerError::InvalidArgument));
}

#[test]
fn test_refund_amounts_per_account() {
    assert_eq!(get_trader_and_signer_refund_amounts(false, true, RENT), (0, 0));
    assert_eq!(get_trader_and_signer_refund_amounts(false, false, RENT), (0, 0));
    assert_eq!(get_trader_and_signer_refund_amounts(true, true, RENT), (RENT, 0));
    assert_eq!(get_trader_and_signer_refund_amounts(true, false, RENT), (0, RENT));
}
