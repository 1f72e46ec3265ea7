//! Delegated governance of trading-seat admission for a market.
//!
//! The library is the verified core of a seat-manager program: the
//! delegate record with its bounded maker registry, the authority
//! succession protocol, seat admission with refundable deposits, and the
//! deposit-protected eviction protocol.  Every operation is modelled as a
//! function from plain values (identities, balances, flags) to a decision
//! or a new record state, with a contract that pins the outcome down.
//! The surrounding ledger plumbing (account loading, delegated calls)
//! lives outside the library and hands it plain values.

pub mod error;
pub mod escrow;
pub mod identity;
pub mod laws;
pub mod instruction;
pub mod market;
pub mod processor;
pub mod seat_manager;

use vstd::prelude::*;

verus! {

/// Capacity of the maker registry: the fixed number of slots for
/// designated market makers in the delegate record.
pub const MAX_DMMS: u64 = 128;

} // verus!
