//! Seat admission: self-service or authorized.
//!
//! A trader gains a market seat either by signing for itself
//! (self-service) or through the delegate authority signing on its
//! behalf (authorized, e.g. batch onboarding).  An already-approved
//! seat makes the whole operation an immediate no-op, before any
//! authorization check and without any deposit.  Otherwise the payer
//! funds a refundable deposit of two token-account rents into the
//! escrow, a seat is requested where none exists yet, and the seat is
//! approved.

use vstd::prelude::*;

use crate::error::SeatManagerError;
use crate::identity::Identity;

verus! {

/// What an admission performs: the delegated calls to issue and the
/// deposit to transfer.
#[derive(Clone, Copy, Debug, PartialEq, Eq, Structural)]
pub struct ClaimSeatPlan {
    /// Issue the delegated request-seat call to create the seat.
    pub request_seat: bool,
    /// Lamports to move from the payer into the deposit escrow.
    pub deposit_lamports: u64,
    /// Issue the delegated set-seat-status call to approve the seat.
    pub approve_seat: bool,
}

/// Decides a seat admission.  `record_authority` is the delegate
/// record's authority; `payer` is the verified paying signer;
/// `trader_is_signer` reports whether the trader itself signed;
/// `authorized` selects the authorized mode.  An approved seat yields
/// an idempotent no-op plan with no deposit.
pub fn process_claim_seat(
    record_authority: Identity,
    payer: Identity,
    trader_is_signer: bool,
    authorized: bool,
    seat_exists: bool,
    seat_approved: bool,
    rent_minimum: u64,
) -> (r: Result<ClaimSeatPlan, SeatManagerError>)
    requires
        rent_minimum <= u64::MAX / 2,
    ensures
        match r {
            Ok(plan) => {
                if seat_exists && seat_approved {
                    // idempotent success: nothing to do, nothing taken
                    &&& !plan.request_seat
                    &&& plan.deposit_lamports == 0
                    &&& !plan.approve_seat
                } else {
                    &&& (!authorized ==> trader_is_signer)
                    &&& (authorized ==> payer == record_authority)
                    &&& plan.request_seat == !seat_exists
                    &&& plan.deposit_lamports == 2 * rent_minimum
                    &&& plan.approve_seat
                }
            },
            Err(e) => {
                &&& e == SeatManagerError::MissingRequiredSignature
                &&& !(seat_exists && seat_approved)
                &&& if authorized {
                    payer != record_authority
                } else {
                    !trader_is_signer
                }
            },
        },
{
    if seat_exists && seat_approved {
        return Ok(ClaimSeatPlan { request_seat: false, deposit_lamports: 0, approve_seat: false });
    }
    if !authorized {
        if !trader_is_signer {
            return Err(SeatManagerError::MissingRequiredSignature);
        }
    } else {
        if payer != record_authority {
            return Err(SeatManagerError::MissingRequiredSignature);
        }
    }
    // the deposit funds token-account (re)creation at eviction time and
    // deters closing token accounts to make the evictor pay
    let deposit_amount = 2 * rent_minimum;
    Ok(ClaimSeatPlan { request_seat: !seat_exists, deposit_lamports: deposit_amount, approve_seat: true })
}

} // verus!
