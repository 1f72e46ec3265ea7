//! Authority succession: naming a successor and claiming the authority.
//!
//! Succession is two-phase: the current authority names a successor,
//! and the successor then claims the authority.  Naming the null
//! identity instead initiates renunciation (see the confirm step).

use vstd::prelude::*;

use crate::error::SeatManagerError;
use crate::identity::{null_identity, Identity};
use crate::seat_manager::SeatManager;

verus! {

/// Outcome of naming a successor: only the current authority may, and
/// only the successor field changes.
pub open spec fn name_successor_result(
    record: SeatManager,
    signer: Identity,
    successor: Identity,
) -> Result<SeatManager, SeatManagerError> {
    if signer != record.authority {
        Err(SeatManagerError::MissingRequiredSignature)
    } else {
        Ok(SeatManager { successor, ..record })
    }
}

/// Outcome of the successor claiming the authority: the successor
/// becomes the authority and the pending succession is cleared.
pub open spec fn claim_authority_result(record: SeatManager, signer: Identity) -> Result<
    SeatManager,
    SeatManagerError,
> {
    if signer != record.successor {
        Err(SeatManagerError::MissingRequiredSignature)
    } else {
        Ok(SeatManager { authority: record.successor, successor: null_identity(), ..record })
    }
}

/// Names `successor` to receive the authority next.  Callable only by
/// the current authority; with the null identity this initiates
/// renunciation.
pub fn process_name_successor(record: &mut SeatManager, signer: Identity, successor: Identity) -> (r:
    Result<(), SeatManagerError>)
    ensures
        old(record).wf() ==> final(record).wf(),
        match r {
            Ok(_) => name_successor_result(*old(record), signer, successor) == Ok::<
                SeatManager,
                SeatManagerError,
            >(*final(record)),
            Err(e) => {
                &&& name_successor_result(*old(record), signer, successor) == Err::<
                    SeatManager,
                    SeatManagerError,
                >(e)
                &&& *final(record) == *old(record)
            },
        },
{
    if signer != record.authority {
        return Err(SeatManagerError::MissingRequiredSignature);
    }
    record.successor = successor;
    Ok(())
}

/// The named successor claims the authority.  The null identity cannot
/// sign, so this path is unreachable once renunciation was initiated;
/// the host runtime guarantees the signer is a real signing party.
pub fn process_claim_seat_manager_authority(record: &mut SeatManager, signer: Identity) -> (r:
    Result<(), SeatManagerError>)
    requires
        signer != null_identity(),
    ensures
        old(record).wf() ==> final(record).wf(),
        match r {
            Ok(_) => claim_authority_result(*old(record), signer) == Ok::<
                SeatManager,
                SeatManagerError,
            >(*final(record)),
            Err(e) => {
                &&& claim_authority_result(*old(record), signer) == Err::<
                    SeatManager,
                    SeatManagerError,
                >(e)
                &&& *final(record) == *old(record)
            },
        },
{
    if signer != record.successor {
        return Err(SeatManagerError::MissingRequiredSignature);
    }
    record.authority = record.successor;
    record.successor = Identity::default();
    Ok(())
}

} // verus!
