//! Plain-value views of market-ledger state.
//!
//! The market ledger itself is an external collaborator: this system
//! only reads its header and per-trader balance records, and mutates it
//! through delegated calls.  The types here hold, as plain values,
//! exactly what the seat-manager logic reads.

use vstd::prelude::*;

use crate::error::SeatManagerError;

verus! {

/// A market's lifecycle status, as named in a change-status request.
#[derive(Clone, Copy, Debug, PartialEq, Eq, Structural)]
pub enum MarketStatus {
    Uninitialized,
    /// All new orders, placements, and reductions are accepted.
    Active,
    /// Only places, reductions and withdrawals are accepted.
    PostOnly,
    /// Only reductions and withdrawals are accepted.
    Paused,
    /// Only reductions and withdrawals are accepted; the market
    /// authority can forcibly cancel all orders.
    Closed,
    /// The market is to be deleted; only reachable from `Closed` once
    /// all orders and traders are removed.
    Tombstoned,
}

/// The one-byte tag of each status in a change-status payload.
pub open spec fn market_status_tag(s: MarketStatus) -> u8 {
    match s {
        MarketStatus::Uninitialized => 0,
        MarketStatus::Active => 1,
        MarketStatus::PostOnly => 2,
        MarketStatus::Paused => 3,
        MarketStatus::Closed => 4,
        MarketStatus::Tombstoned => 5,
    }
}

impl MarketStatus {
    /// The status's tag byte.
    pub fn to_u8(&self) -> (r: u8)
        ensures
            r == market_status_tag(*self),
    {
        match *self {
            MarketStatus::Uninitialized => 0,
            MarketStatus::Active => 1,
            MarketStatus::PostOnly => 2,
            MarketStatus::Paused => 3,
            MarketStatus::Closed => 4,
            MarketStatus::Tombstoned => 5,
        }
    }

    /// The status named by a tag byte; `None` for an unknown tag.
    pub fn from_u8(tag: u8) -> (r: Option<MarketStatus>)
        ensures
            match r {
                Some(s) => market_status_tag(s) == tag,
                None => tag > 5,
            },
    {
        if tag == 0 {
            Some(MarketStatus::Uninitialized)
        } else if tag == 1 {
            Some(MarketStatus::Active)
        } else if tag == 2 {
            Some(MarketStatus::PostOnly)
        } else if tag == 3 {
            Some(MarketStatus::Paused)
        } else if tag == 4 {
            Some(MarketStatus::Closed)
        } else if tag == 5 {
            Some(MarketStatus::Tombstoned)
        } else {
            None
        }
    }
}

/// Reads a status from a change-status payload: exactly one byte, the
/// status tag.  Anything else is malformed request data.
pub fn parse_market_status(data: &[u8]) -> (r: Result<MarketStatus, SeatManagerError>)
    ensures
        match r {
            Ok(s) => data@.len() == 1 && market_status_tag(s) == data@[0],
            Err(e) => {
                &&& e == SeatManagerError::InvalidInstructionData
                &&& (data@.len() != 1 || data@[0] > 5)
            },
        },
{
    if data.len() != 1 {
        return Err(SeatManagerError::InvalidInstructionData);
    }
    match MarketStatus::from_u8(data[0]) {
        Some(s) => Ok(s),
        None => Err(SeatManagerError::InvalidInstructionData),
    }
}

/// A registered trader's balance record on the market ledger, read-only
/// to this system; it decides eviction eligibility.
#[derive(Clone, Copy, Debug, PartialEq, Eq, Structural)]
pub struct TraderState {
    pub quote_lots_locked: u64,
    pub quote_lots_free: u64,
    pub base_lots_locked: u64,
    pub base_lots_free: u64,
}

impl TraderState {
    /// A seat is empty when all four balances are zero; anyone may then
    /// remove it.
    pub open spec fn seat_is_empty_spec(&self) -> bool {
        self.base_lots_locked == 0 && self.quote_lots_locked == 0 && self.base_lots_free == 0
            && self.quote_lots_free == 0
    }

    /// True exactly when all four balances are zero.
    pub fn seat_is_empty(&self) -> (r: bool)
        ensures
            r == self.seat_is_empty_spec(),
    {
        self.base_lots_locked == 0 && self.quote_lots_locked == 0 && self.base_lots_free == 0
            && self.quote_lots_free == 0
    }

    /// No lots are locked in open orders; free balances may remain.
    pub open spec fn no_locked_lots_spec(&self) -> bool {
        self.base_lots_locked == 0 && self.quote_lots_locked == 0
    }

    /// True exactly when no lots are locked.
    pub fn no_locked_lots(&self) -> (r: bool)
        ensures
            r == self.no_locked_lots_spec(),
    {
        self.base_lots_locked == 0 && self.quote_lots_locked == 0
    }
}

/// The market's size configuration, from its header.
#[derive(Clone, Copy, Debug, PartialEq, Eq, Structural)]
pub struct MarketSizeParams {
    pub bids_size: u64,
    pub asks_size: u64,
    pub num_seats: u64,
}

} // verus!
