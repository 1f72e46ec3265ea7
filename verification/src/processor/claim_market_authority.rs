//! Bootstrap: create or re-claim the delegate record and take over
//! market administration.
//!
//! The market must have seat room reserved for the book plus every
//! possible maker plus one, must already name the delegate's derived
//! key as its pending successor-authority, must not already be
//! administered by the delegate, and the deposit escrow must hold
//! enough to later refund or fund eviction of every trader that joined
//! before delegation existed.  A fresh record starts with the payer as
//! both authority and successor; a re-claim requires the payer to be
//! the current authority and opens a new delegation epoch by clearing
//! the maker registry.

use vstd::prelude::*;

use crate::error::SeatManagerError;
use crate::identity::Identity;
use crate::market::MarketSizeParams;
use crate::seat_manager::SeatManager;
use crate::MAX_DMMS;

verus! {

/// Seat room reserved beyond the book: one per possible maker plus one.
pub open spec fn market_size_ok(size: MarketSizeParams) -> bool {
    size.num_seats as int == size.bids_size as int + size.asks_size as int + 1 + MAX_DMMS as int
}

/// Escrow reserve owed for the traders that joined before delegation:
/// two token-account rents for each of them.
pub open spec fn required_escrow_reserve(registered_trader_count: u64, rent: u64) -> int {
    registered_trader_count as int * rent as int * 2
}

/// Establishes or re-claims the delegate record for `market`.  The
/// caller hands in what it read from the market header (`size_params`,
/// `market_authority`, `market_successor`), the delegate's derived key,
/// the verified paying signer, the count of already-registered traders,
/// the rent-exempt minimum for one token account, and the escrow
/// balance.  On success the delegated claim-authority call is to be
/// issued; on any failure the record is unchanged.
pub fn process_claim_market_authority(
    record: &mut Option<SeatManager>,
    market: Identity,
    size_params: MarketSizeParams,
    market_authority: Identity,
    market_successor: Identity,
    seat_manager_key: Identity,
    payer: Identity,
    registered_trader_count: u64,
    rent_minimum: u64,
    escrow_lamports: u64,
) -> (r: Result<(), SeatManagerError>)
    requires
        match *old(record) {
            Some(sm) => sm.wf(),
            None => true,
        },
    ensures
        r is Err ==> *final(record) == *old(record),
        match r {
            Ok(_) => {
                &&& market_size_ok(size_params)
                &&& market_successor == seat_manager_key
                &&& market_authority != seat_manager_key
                &&& escrow_lamports as int >= required_escrow_reserve(
                    registered_trader_count,
                    rent_minimum,
                )
                &&& (*final(record)) is Some
                &&& (*final(record))->Some_0.wf()
                &&& (*final(record))->Some_0.num_makers == 0
                &&& (*final(record))->Some_0.maker_seq() == Seq::<Identity>::empty()
                &&& match *old(record) {
                    None => {
                        &&& (*final(record))->Some_0.market == market
                        &&& (*final(record))->Some_0.authority == payer
                        &&& (*final(record))->Some_0.successor == payer
                    },
                    Some(sm) => {
                        &&& sm.market == market
                        &&& sm.authority == payer
                        &&& (*final(record))->Some_0.market == sm.market
                        &&& (*final(record))->Some_0.authority == sm.authority
                        &&& (*final(record))->Some_0.successor == sm.successor
                    },
                }
            },
            Err(e) => {
                if !market_size_ok(size_params) {
                    e == SeatManagerError::InvalidAccountData
                } else if market_successor != seat_manager_key {
                    e == SeatManagerError::InvalidArgument
                } else if market_authority == seat_manager_key {
                    e == SeatManagerError::InvalidArgument
                } else if (escrow_lamports as int) < required_escrow_reserve(
                    registered_trader_count,
                    rent_minimum,
                ) {
                    e == SeatManagerError::InsufficientFunds
                } else if (*old(record)) is Some && (*old(record))->Some_0.market != market {
                    e == SeatManagerError::InvalidArgument
                } else if (*old(record)) is Some && (*old(record))->Some_0.authority != payer {
                    e == SeatManagerError::InvalidArgument
                } else {
                    false
                }
            },
        },
{
    // seat room reserved for the book plus every possible maker plus one
    let expected_seats: u128 = size_params.bids_size as u128 + size_params.asks_size as u128 + 1
        + MAX_DMMS as u128;
    if size_params.num_seats as u128 != expected_seats {
        return Err(SeatManagerError::InvalidAccountData);
    }
    if market_successor != seat_manager_key {
        return Err(SeatManagerError::InvalidArgument);
    }
    if market_authority == seat_manager_key {
        return Err(SeatManagerError::InvalidArgument);
    }
    // the escrow must cover two token-account rents per existing trader
    proof {
        assert(registered_trader_count as int * rent_minimum as int <= u64::MAX as int
            * u64::MAX as int) by (nonlinear_arith)
            requires
                registered_trader_count as int <= u64::MAX as int,
                rent_minimum as int <= u64::MAX as int,
        ;
    }
    let need: u128 = (registered_trader_count as u128) * (rent_minimum as u128);
    let enough = need <= u128::MAX / 2 && (escrow_lamports as u128) >= 2 * need;
    proof {
        if need > u128::MAX / 2 {
            assert(2 * (need as int) > u128::MAX as int);
            assert((escrow_lamports as int) < 2 * (need as int));
        }
    }
    if !enough {
        return Err(SeatManagerError::InsufficientFunds);
    }
    match record {
        None => {
            *record = Some(SeatManager::new(market, payer, payer));
            Ok(())
        },
        Some(sm) => {
            if sm.market != market {
                return Err(SeatManagerError::InvalidArgument);
            }
            if sm.authority != payer {
                return Err(SeatManagerError::InvalidArgument);
            }
            // a new delegation epoch invalidates prior maker designations
            sm.clear_all_dmms();
            Ok(())
        },
    }
}

} // verus!
