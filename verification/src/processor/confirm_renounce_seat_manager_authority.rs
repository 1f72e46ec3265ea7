//! Renunciation of the delegate authority, confirm step.
//!
//! Renunciation is initiated by naming the null identity as successor.
//! The confirm step re-checks that the successor is still null — so a
//! competing successor naming in the interim makes it fail — and then
//! sets the authority to null forever.  No further mutation of the
//! record's authority is possible after that, and every
//! authority-gated operation becomes permanently unreachable.

use vstd::prelude::*;

use crate::error::SeatManagerError;
use crate::identity::{null_identity, Identity};
use crate::processor::change_seat_manager_authority::name_successor_result;
use crate::seat_manager::SeatManager;

verus! {

/// Outcome of confirming renunciation: only the current authority may,
/// and only while the successor is still the null identity.
pub open spec fn confirm_renounce_result(record: SeatManager, signer: Identity) -> Result<
    SeatManager,
    SeatManagerError,
> {
    if signer != record.authority {
        Err(SeatManagerError::MissingRequiredSignature)
    } else if record.successor != null_identity() {
        Err(SeatManagerError::InvalidAccountData)
    } else {
        Ok(SeatManager { authority: null_identity(), ..record })
    }
}

/// Confirms a pending renunciation, making the authority null forever.
pub fn process_confirm_renounce_seat_manager_authority(
    record: &mut SeatManager,
    signer: Identity,
) -> (r: Result<(), SeatManagerError>)
    ensures
        old(record).wf() ==> final(record).wf(),
        match r {
            Ok(_) => confirm_renounce_result(*old(record), signer) == Ok::<
                SeatManager,
                SeatManagerError,
            >(*final(record)),
            Err(e) => {
                &&& confirm_renounce_result(*old(record), signer) == Err::<
                    SeatManager,
                    SeatManagerError,
                >(e)
                &&& *final(record) == *old(record)
            },
        },
{
    if signer != record.authority {
        return Err(SeatManagerError::MissingRequiredSignature);
    }
    let immutable_authority = Identity::default();
    if record.successor != immutable_authority {
        return Err(SeatManagerError::InvalidAccountData);
    }
    record.authority = immutable_authority;
    Ok(())
}

/// Law: once renunciation was initiated, a successful naming of any
/// non-null successor — by whoever then holds the authority — makes
/// the confirm step fail for every possible signer: the successor is
/// no longer null.
pub proof fn lemma_renounce_race(record: SeatManager, authority_signer: Identity, x: Identity)
    requires
        record.successor == null_identity(),
        x != null_identity(),
        name_successor_result(record, authority_signer, x) is Ok,
    ensures
        forall|s: Identity|
            (#[trigger] confirm_renounce_result(
                name_successor_result(record, authority_signer, x)->Ok_0,
                s,
            )) is Err,
{
    let record1 = name_successor_result(record, authority_signer, x)->Ok_0;
    assert(record1.successor == x);
    assert forall|s: Identity| (#[trigger] confirm_renounce_result(record1, s)) is Err by {
        if s == record1.authority {
            assert(record1.successor != null_identity());
        }
    }
}

} // verus!
