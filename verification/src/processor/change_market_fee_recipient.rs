//! Authority-gated change of the market's fee recipient.
//!
//! So that fees are never stranded under the old recipient, any
//! uncollected fee amount is first collected to the current recipient
//! before the switch; the plan says whether that extra delegated call
//! is owed.

use vstd::prelude::*;

use crate::error::SeatManagerError;
use crate::identity::Identity;
use crate::seat_manager::SeatManager;

verus! {

/// The delegated calls a fee-recipient change performs.
#[derive(Clone, Copy, Debug, PartialEq, Eq, Structural)]
pub struct FeeRecipientPlan {
    /// Collect the pending fees to the current recipient before
    /// switching.
    pub collect_fees_first: bool,
}

/// Checks the signer and decides whether fees must be collected before
/// the recipient switch.  `uncollected_fees` is the market's pending
/// fee amount, read by the caller.
pub fn process_change_market_fee_recipient(
    record: &SeatManager,
    signer: Identity,
    uncollected_fees: u64,
) -> (r: Result<FeeRecipientPlan, SeatManagerError>)
    ensures
        match r {
            Ok(plan) => {
                &&& signer == record.authority
                &&& plan.collect_fees_first == (uncollected_fees > 0)
            },
            Err(e) => {
                &&& e == SeatManagerError::MissingRequiredSignature
                &&& signer != record.authority
            },
        },
{
    if signer != record.authority {
        return Err(SeatManagerError::MissingRequiredSignature);
    }
    Ok(FeeRecipientPlan { collect_fees_first: uncollected_fees > 0 })
}

} // verus!
