//! Authority-gated naming of the market's next authority.
//!
//! The payload holds the successor's 32-byte identifier; on success the
//! caller issues the delegated name-successor call with the returned
//! identity.

use vstd::prelude::*;

use crate::error::SeatManagerError;
use crate::identity::{parse_identity, spec_identity_from_bytes, Identity};
use crate::seat_manager::SeatManager;

verus! {

/// Checks the signer and reads the successor off the payload.
pub fn process_name_market_authority_successor(
    record: &SeatManager,
    signer: Identity,
    data: &[u8],
) -> (r: Result<Identity, SeatManagerError>)
    ensures
        match r {
            Ok(successor) => {
                &&& signer == record.authority
                &&& data@.len() == 32
                &&& successor == spec_identity_from_bytes(data@)
            },
            Err(e) => {
                if signer != record.authority {
                    e == SeatManagerError::MissingRequiredSignature
                } else {
                    e == SeatManagerError::InvalidInstructionData && data@.len() != 32
                }
            },
        },
{
    if signer != record.authority {
        return Err(SeatManagerError::MissingRequiredSignature);
    }
    parse_identity(data)
}

} // verus!
