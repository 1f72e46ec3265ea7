//! Cross-operation laws of the deposit escrow.

use vstd::prelude::*;

use crate::processor::evict_seat::{action_for_spec, EvictCandidate};

verus! {

/// Law: deposit conservation.  A trader that claims a seat pays two
/// token-account rents into the escrow; when it is later evicted with
/// untouched, trader-owned, already-initialized token accounts, the
/// eviction refunds the trader exactly those two rents and nothing to
/// the evictor, so the trader's balance returns to its pre-claim value
/// and the escrow balance returns to its pre-claim value.
pub proof fn lemma_deposit_conservation(c: EvictCandidate, rent: u64, escrow0: u64, trader0: u64)
    requires
        rent <= u64::MAX / 2,
        escrow0 + 2 * rent <= u64::MAX,
        trader0 >= 2 * rent,
        c.base_token_account.is_initialized,
        c.base_token_account.has_expected_owner,
        c.quote_token_account.is_initialized,
        c.quote_token_account.has_expected_owner,
    ensures
        ({
            // balances after the admission deposit of two rents
            let escrow_after_claim = (escrow0 + 2 * rent) as u64;
            let trader_after_claim = (trader0 - 2 * rent) as u64;
            let action = action_for_spec(c, rent);
            &&& action.trader_refund == 2 * rent
            &&& action.signer_refund == 0
            &&& escrow_after_claim - action.trader_refund == escrow0
            &&& trader_after_claim + action.trader_refund == trader0
        }),
{
}

} // verus!
