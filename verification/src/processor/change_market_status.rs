//! Authority-gated change of the market's status.
//!
//! The payload names the new status by its one-byte tag; on success the
//! caller issues the delegated change-status call with the returned
//! status.

use vstd::prelude::*;

use crate::error::SeatManagerError;
use crate::identity::Identity;
use crate::market::{market_status_tag, parse_market_status, MarketStatus};
use crate::seat_manager::SeatManager;

verus! {

/// Checks the signer and reads the requested status off the payload.
pub fn process_change_market_status(record: &SeatManager, signer: Identity, data: &[u8]) -> (r:
    Result<MarketStatus, SeatManagerError>)
    ensures
        match r {
            Ok(status) => {
                &&& signer == record.authority
                &&& data@.len() == 1
                &&& market_status_tag(status) == data@[0]
            },
            Err(e) => {
                if signer != record.authority {
                    e == SeatManagerError::MissingRequiredSignature
                } else {
                    e == SeatManagerError::InvalidInstructionData && (data@.len() != 1 || data@[0]
                        > 5)
                }
            },
        },
{
    if signer != record.authority {
        return Err(SeatManagerError::MissingRequiredSignature);
    }
    parse_market_status(data)
}

} // verus!
