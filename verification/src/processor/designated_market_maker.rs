//! Designation and removal of market makers.
//!
//! Only the delegate authority may designate or remove a maker, and a
//! trader may only be designated while it currently holds a registered
//! seat on the market (`trader_has_seat`, read from the market ledger
//! by the caller).  Removal does not re-check the seat: a maker can be
//! removed even after losing its seat, but a seat cannot be evicted
//! while its trader is still a maker.

use vstd::prelude::*;

use crate::error::SeatManagerError;
use crate::identity::{null_identity, Identity};
use crate::seat_manager::{inserts_maker, removes_maker, SeatManager};
use crate::MAX_DMMS;

verus! {

/// Adds (or, with `remove`, drops) `trader` in the maker registry.
/// Returns the registry index the maker was placed at or removed from.
pub fn process_designated_market_maker(
    record: &mut SeatManager,
    signer: Identity,
    trader: Identity,
    trader_has_seat: bool,
    remove: bool,
) -> (r: Result<usize, SeatManagerError>)
    requires
        old(record).wf(),
    ensures
        final(record).wf(),
        final(record).market == old(record).market,
        final(record).authority == old(record).authority,
        final(record).successor == old(record).successor,
        r is Err ==> *final(record) == *old(record),
        match r {
            Ok(idx) => {
                &&& signer == old(record).authority
                &&& trader_has_seat
                &&& if remove {
                    &&& old(record).maker_seq().contains(trader)
                    &&& removes_maker(*old(record), *final(record), trader)
                    &&& final(record).num_makers as int == old(record).num_makers as int - 1
                    &&& (idx as int) < old(record).num_makers as int
                    &&& old(record).designated_market_makers@[idx as int] == trader
                } else {
                    &&& !old(record).maker_seq().contains(trader)
                    &&& inserts_maker(*old(record), *final(record), trader)
                    &&& final(record).num_makers as int == old(record).num_makers as int + 1
                    &&& idx as int == old(record).num_makers as int
                }
            },
            Err(e) => {
                if signer != old(record).authority {
                    e == SeatManagerError::MissingRequiredSignature
                } else if !trader_has_seat {
                    e == SeatManagerError::InvalidAccountData
                } else if remove {
                    e == SeatManagerError::InvalidAccountData && !old(record).maker_seq().contains(
                        trader,
                    )
                } else {
                    e == SeatManagerError::InvalidAccountData && (old(record).maker_seq().contains(
                        trader,
                    ) || trader == null_identity() || old(record).num_makers == MAX_DMMS)
                }
            },
        },
{
    if signer != record.authority {
        return Err(SeatManagerError::MissingRequiredSignature);
    }
    if !trader_has_seat {
        return Err(SeatManagerError::InvalidAccountData);
    }
    if remove {
        match record.remove(&trader) {
            Some(index) => Ok(index),
            None => Err(SeatManagerError::InvalidAccountData),
        }
    } else {
        match record.insert(&trader) {
            Some(index) => Ok(index),
            None => Err(SeatManagerError::InvalidAccountData),
        }
    }
}

} // verus!
