//! Errors surfaced by the seat-manager operations.
//!
//! Every operation fails atomically: an error means no state change was
//! made.  The variants mirror the ledger-level error codes the program
//! reports, so the surrounding runtime can map them one to one.

use vstd::prelude::*;

verus! {

#[derive(Clone, Copy, Debug, PartialEq, Eq, Structural)]
pub enum SeatManagerError {
    /// Malformed request payload, or a request account that does not
    /// match its expected derived address.
    InvalidInstructionData,
    /// A precondition on persisted state does not hold (capacity
    /// mismatch, registry full/duplicate/absent, malformed record).
    InvalidAccountData,
    /// A supplied identity does not match what the operation requires.
    InvalidArgument,
    /// The required signer is missing or is not the required party.
    MissingRequiredSignature,
    /// The deposit escrow or the paying party holds too few lamports.
    InsufficientFunds,
}

} // verus!
