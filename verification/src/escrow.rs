//! Deposit escrow accounting.
//!
//! The escrow is a per-market pooled balance with no internal
//! structure.  It grows only by admission deposits and shrinks only by
//! eviction-driven refunds and escrow-paid token-account creation.
//! These functions model the two lamport movements exactly; the
//! surrounding runtime performs the matching value transfers.

use vstd::prelude::*;

use crate::error::SeatManagerError;

verus! {

/// Moves an admission deposit from the payer into the escrow.  Fails,
/// moving nothing, when the payer cannot cover it.
pub fn apply_deposit(escrow_lamports: u64, payer_lamports: u64, amount: u64) -> (r: Result<
    (u64, u64),
    SeatManagerError,
>)
    requires
        escrow_lamports + amount <= u64::MAX,
    ensures
        match r {
            Ok(balances) => {
                &&& payer_lamports >= amount
                &&& balances.0 == escrow_lamports + amount
                &&& balances.1 == payer_lamports - amount
            },
            Err(e) => {
                &&& e == SeatManagerError::InsufficientFunds
                &&& payer_lamports < amount
            },
        },
{
    if payer_lamports < amount {
        return Err(SeatManagerError::InsufficientFunds);
    }
    Ok((escrow_lamports + amount, payer_lamports - amount))
}

/// Moves a refund from the escrow to a recipient.  Fails, moving
/// nothing, when the escrow cannot cover it.
pub fn apply_refund(escrow_lamports: u64, recipient_lamports: u64, amount: u64) -> (r: Result<
    (u64, u64),
    SeatManagerError,
>)
    requires
        recipient_lamports + amount <= u64::MAX,
    ensures
        match r {
            Ok(balances) => {
                &&& escrow_lamports >= amount
                &&& balances.0 == escrow_lamports - amount
                &&& balances.1 == recipient_lamports + amount
            },
            Err(e) => {
                &&& e == SeatManagerError::InsufficientFunds
                &&& escrow_lamports < amount
            },
        },
{
    if escrow_lamports < amount {
        return Err(SeatManagerError::InsufficientFunds);
    }
    Ok((escrow_lamports - amount, recipient_lamports + amount))
}

} // verus!
