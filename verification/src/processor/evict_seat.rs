//! Deposit-protected eviction of trader seats.
//!
//! A batch of candidates is processed in the order supplied.  A
//! candidate is silently skipped when it is a registered maker, holds no
//! balance record, or is ineligible under the evictor's privilege.  An
//! eligible candidate is evicted: its seat is revoked, missing token
//! accounts are created at the escrow's expense, and the admission
//! deposit is refunded to the trader (or to the evictor where a token
//! account's owner was reassigned, in which case a backup destination
//! account must have been supplied — a missing backup aborts the whole
//! batch).  An evictor without full privilege may evict at most one
//! non-empty seat per batch; empty-seat cleanups are unrestricted.

use vstd::prelude::*;

use crate::error::SeatManagerError;
use crate::identity::Identity;
use crate::market::TraderState;
use crate::seat_manager::SeatManager;

verus! {

/// Observed state of the trader's expected token account for one mint.
#[derive(Clone, Copy, Debug, PartialEq, Eq, Structural)]
pub struct TokenAccountState {
    pub is_initialized: bool,
    pub has_expected_owner: bool,
}

impl TokenAccountState {
    /// An uninitialized account will be created for the trader in this
    /// very operation, so its owner matches by construction.
    pub open spec fn wf(&self) -> bool {
        self.is_initialized || self.has_expected_owner
    }

    /// Classifies an observed token account: `owner_matches_trader` is
    /// only consulted for an initialized account.
    pub fn new(is_initialized: bool, owner_matches_trader: bool) -> (r: TokenAccountState)
        ensures
            r.is_initialized == is_initialized,
            r.has_expected_owner == (!is_initialized || owner_matches_trader),
            r.wf(),
    {
        TokenAccountState {
            is_initialized,
            has_expected_owner: !is_initialized || owner_matches_trader,
        }
    }
}

/// One eviction candidate, with everything the decision reads.
#[derive(Clone, Copy, Debug, PartialEq, Eq, Structural)]
pub struct EvictCandidate {
    pub trader: Identity,
    /// The trader's balance record, absent when not registered.
    pub trader_state: Option<TraderState>,
    pub base_token_account: TokenAccountState,
    pub quote_token_account: TokenAccountState,
    pub base_backup_supplied: bool,
    pub quote_backup_supplied: bool,
}

/// Everything to perform for one evicted trader.
#[derive(Clone, Copy, Debug, PartialEq, Eq, Structural)]
pub struct EvictionAction {
    pub trader: Identity,
    /// Create the trader's base/quote token account, paid by the escrow.
    pub create_base_token_account: bool,
    pub create_quote_token_account: bool,
    /// Redirect the token sweep to the supplied backup account.
    pub use_base_backup: bool,
    pub use_quote_backup: bool,
    /// Lamports refunded from the escrow to the trader.
    pub trader_refund: u64,
    /// Lamports refunded from the escrow to the evictor.
    pub signer_refund: u64,
}

/// Refunds owed for one token account: nothing when it must be created
/// (the escrow pays the rent instead), one rent minimum to the trader
/// when it is intact, one rent minimum to the evictor when its owner
/// was reassigned.
pub open spec fn spec_refund_amounts(
    ata_is_initialized: bool,
    ata_has_expected_owner: bool,
    rent: u64,
) -> (u64, u64) {
    if !ata_is_initialized {
        (0u64, 0u64)
    } else if ata_has_expected_owner {
        (rent, 0u64)
    } else {
        (0u64, rent)
    }
}

/// Computes the (trader, evictor) refund for one token account.
pub fn get_trader_and_signer_refund_amounts(
    ata_is_initialized: bool,
    ata_has_expected_owner: bool,
    rent_minimum: u64,
) -> (r: (u64, u64))
    ensures
        r == spec_refund_amounts(ata_is_initialized, ata_has_expected_owner, rent_minimum),
{
    if !ata_is_initialized {
        (0, 0)
    } else if ata_has_expected_owner {
        (rent_minimum, 0)
    } else {
        (0, rent_minimum)
    }
}

/// Eligibility: a privileged evictor (the authority, or anyone while
/// the market's trader set is at capacity) may evict any seat without
/// locked lots; anyone else only a fully empty seat.
pub open spec fn can_evict_spec(ts: TraderState, privileged: bool) -> bool {
    if privileged {
        ts.no_locked_lots_spec()
    } else {
        ts.seat_is_empty_spec()
    }
}

/// A candidate that is passed over without error: a registered maker,
/// an unregistered trader, or an ineligible seat.
pub open spec fn candidate_skipped(record: SeatManager, c: EvictCandidate, privileged: bool) -> bool {
    ||| record.maker_seq().contains(c.trader)
    ||| c.trader_state is None
    ||| !can_evict_spec(c.trader_state->Some_0, privileged)
}

/// A token-account owner was reassigned but no backup destination
/// account was supplied; the whole batch fails.
pub open spec fn candidate_missing_backup(c: EvictCandidate) -> bool {
    ||| (!c.base_token_account.has_expected_owner && !c.base_backup_supplied)
    ||| (!c.quote_token_account.has_expected_owner && !c.quote_backup_supplied)
}

/// The action performed for an evicted candidate.
pub open spec fn action_for_spec(c: EvictCandidate, rent: u64) -> EvictionAction {
    EvictionAction {
        trader: c.trader,
        create_base_token_account: !c.base_token_account.is_initialized,
        create_quote_token_account: !c.quote_token_account.is_initialized,
        use_base_backup: !c.base_token_account.has_expected_owner,
        use_quote_backup: !c.quote_token_account.has_expected_owner,
        trader_refund: (spec_refund_amounts(
            c.base_token_account.is_initialized,
            c.base_token_account.has_expected_owner,
            rent,
        ).0 + spec_refund_amounts(
            c.quote_token_account.is_initialized,
            c.quote_token_account.has_expected_owner,
            rent,
        ).0) as u64,
        signer_refund: (spec_refund_amounts(
            c.base_token_account.is_initialized,
            c.base_token_account.has_expected_owner,
            rent,
        ).1 + spec_refund_amounts(
            c.quote_token_account.is_initialized,
            c.quote_token_account.has_expected_owner,
            rent,
        ).1) as u64,
    }
}

/// Prepends already-decided actions to the outcome of the rest of a
/// batch; an error anywhere fails the whole batch.
pub open spec fn with_prefix(
    prefix: Seq<EvictionAction>,
    r: Result<Seq<EvictionAction>, SeatManagerError>,
) -> Result<Seq<EvictionAction>, SeatManagerError> {
    match r {
        Ok(tail) => Ok(prefix + tail),
        Err(e) => Err(e),
    }
}

/// The whole batch, processed in the order supplied: the sequence of
/// evictions performed, or the error that aborts the batch.  After a
/// not-fully-authorized evictor evicts a non-empty seat, the rest of
/// the batch is not processed.
pub open spec fn evict_batch_spec(
    record: SeatManager,
    evictor: Identity,
    market_at_capacity: bool,
    rent: u64,
    cands: Seq<EvictCandidate>,
) -> Result<Seq<EvictionAction>, SeatManagerError>
    decreases cands.len(),
{
    let fully = evictor == record.authority;
    let privileged = fully || market_at_capacity;
    if cands.len() == 0 {
        Ok(Seq::<EvictionAction>::empty())
    } else {
        let c = cands[0];
        if candidate_skipped(record, c, privileged) {
            evict_batch_spec(record, evictor, market_at_capacity, rent, cands.drop_first())
        } else if candidate_missing_backup(c) {
            Err(SeatManagerError::InvalidArgument)
        } else if !fully && !c.trader_state->Some_0.seat_is_empty_spec() {
            Ok(seq![action_for_spec(c, rent)])
        } else {
            with_prefix(
                seq![action_for_spec(c, rent)],
                evict_batch_spec(record, evictor, market_at_capacity, rent, cands.drop_first()),
            )
        }
    }
}

/// Decides a whole eviction batch.  `market_at_capacity` reports
/// whether the market's registered-trader set is full; `rent_minimum`
/// is the rent-exempt minimum for one token account.  Returns the
/// evictions to perform, in order, exactly as `evict_batch_spec` says;
/// each carries refunds of at most two rent minimums.
pub fn process_evict_seat(
    record: &SeatManager,
    evictor: Identity,
    market_at_capacity: bool,
    rent_minimum: u64,
    candidates: &Vec<EvictCandidate>,
) -> (r: Result<Vec<EvictionAction>, SeatManagerError>)
    requires
        record.wf(),
        rent_minimum <= u64::MAX / 2,
    ensures
        match r {
            Ok(actions) => {
                &&& evict_batch_spec(*record, evictor, market_at_capacity, rent_minimum, candidates@)
                    == Ok::<Seq<EvictionAction>, SeatManagerError>(actions@)
                &&& forall|k: int|
                    0 <= k < actions@.len()
                        ==> #[trigger] actions@[k].trader_refund + actions@[k].signer_refund <= 2
                        * rent_minimum
            },
            Err(e) => evict_batch_spec(*record, evictor, market_at_capacity, rent_minimum, candidates@)
                == Err::<Seq<EvictionAction>, SeatManagerError>(e),
        },
{
    let is_fully_authorized = evictor == record.authority;
    let privileged = is_fully_authorized || market_at_capacity;
    let n = candidates.len();
    let mut out: Vec<EvictionAction> = Vec::new();
    let mut i: usize = 0;
    proof {
        assert(candidates@.subrange(0, n as int) =~= candidates@);
    }
    while i < n
        invariant_except_break
            record.wf(),
            rent_minimum <= u64::MAX / 2,
            n as int == candidates@.len(),
            i <= n,
            is_fully_authorized == (evictor == record.authority),
            privileged == (is_fully_authorized || market_at_capacity),
            forall|k: int|
                0 <= k < out@.len() ==> #[trigger] out@[k].trader_refund + out@[k].signer_refund
                    <= 2 * rent_minimum,
            evict_batch_spec(*record, evictor, market_at_capacity, rent_minimum, candidates@)
                == with_prefix(
                out@,
                evict_batch_spec(
                    *record,
                    evictor,
                    market_at_capacity,
                    rent_minimum,
                    candidates@.subrange(i as int, n as int),
                ),
            ),
        ensures
            evict_batch_spec(*record, evictor, market_at_capacity, rent_minimum, candidates@) == Ok::<
                Seq<EvictionAction>,
                SeatManagerError,
            >(out@),
            forall|k: int|
                0 <= k < out@.len() ==> #[trigger] out@[k].trader_refund + out@[k].signer_refund
                    <= 2 * rent_minimum,
        decreases n - i,
    {
        let ghost suf = candidates@.subrange(i as int, n as int);
        proof {
            assert(suf.len() > 0);
            assert(suf[0] == candidates@[i as int]);
            assert(suf.drop_first() =~= candidates@.subrange(i as int + 1, n as int));
        }
        let c = candidates[i];
        let is_maker = record.contains(&c.trader);
        let mut skipped = true;
        let mut seat_empty = false;
        if !is_maker {
            match c.trader_state {
                None => {
                }
                Some(ts) => {
                    seat_empty = ts.seat_is_empty();
                    let can_evict = if privileged {
                        ts.no_locked_lots()
                    } else {
                        seat_empty
                    };
                    if can_evict {
                        skipped = false;
                    }
                }
            }
        }
        if skipped {
            proof {
                assert(candidate_skipped(*record, suf[0], privileged));
                assert(evict_batch_spec(*record, evictor, market_at_capacity, rent_minimum, suf)
                    == evict_batch_spec(
                    *record,
                    evictor,
                    market_at_capacity,
                    rent_minimum,
                    suf.drop_first(),
                ));
            }
            i = i + 1;
        } else {
            if !c.base_token_account.has_expected_owner && !c.base_backup_supplied {
                proof {
                    assert(candidate_missing_backup(suf[0]));
                    assert(evict_batch_spec(
                        *record,
                        evictor,
                        market_at_capacity,
                        rent_minimum,
                        suf,
                    ) == Err::<Seq<EvictionAction>, SeatManagerError>(
                        SeatManagerError::InvalidArgument,
                    ));
                }
                return Err(SeatManagerError::InvalidArgument);
            }
            if !c.quote_token_account.has_expected_owner && !c.quote_backup_supplied {
                proof {
                    assert(candidate_missing_backup(suf[0]));
                    assert(evict_batch_spec(
                        *record,
                        evictor,
                        market_at_capacity,
                        rent_minimum,
                        suf,
                    ) == Err::<Seq<EvictionAction>, SeatManagerError>(
                        SeatManagerError::InvalidArgument,
                    ));
                }
                return Err(SeatManagerError::InvalidArgument);
            }
            let (base_trader_refund, base_signer_refund) = get_trader_and_signer_refund_amounts(
                c.base_token_account.is_initialized,
                c.base_token_account.has_expected_owner,
                rent_minimum,
            );
            let (quote_trader_refund, quote_signer_refund) = get_trader_and_signer_refund_amounts(
                c.quote_token_account.is_initialized,
                c.quote_token_account.has_expected_owner,
                rent_minimum,
            );
            let action = EvictionAction {
                trader: c.trader,
                create_base_token_account: !c.base_token_account.is_initialized,
                create_quote_token_account: !c.quote_token_account.is_initialized,
                use_base_backup: !c.base_token_account.has_expected_owner,
                use_quote_backup: !c.quote_token_account.has_expected_owner,
                trader_refund: base_trader_refund + quote_trader_refund,
                signer_refund: base_signer_refund + quote_signer_refund,
            };
            proof {
                assert(!candidate_skipped(*record, suf[0], privileged));
                assert(!candidate_missing_backup(suf[0]));
                assert(action == action_for_spec(suf[0], rent_minimum));
            }
            let ghost out_pre = out@;
            out.push(action);
            if !is_fully_authorized && !seat_empty {
                proof {
                    assert(evict_batch_spec(*record, evictor, market_at_capacity, rent_minimum, suf)
                        == Ok::<Seq<EvictionAction>, SeatManagerError>(
                        seq![action_for_spec(suf[0], rent_minimum)],
                    ));
                    assert(out_pre + seq![action] =~= out@);
                }
                break ;
            }
            proof {
                assert(evict_batch_spec(*record, evictor, market_at_capacity, rent_minimum, suf)
                    == with_prefix(
                    seq![action_for_spec(suf[0], rent_minimum)],
                    evict_batch_spec(
                        *record,
                        evictor,
                        market_at_capacity,
                        rent_minimum,
                        suf.drop_first(),
                    ),
                ));
                let rtail = evict_batch_spec(
                    *record,
                    evictor,
                    market_at_capacity,
                    rent_minimum,
                    suf.drop_first(),
                );
                match rtail {
                    Ok(tail) => {
                        assert(out_pre + (seq![action] + tail) =~= (out_pre + seq![action]) + tail);
                        assert(out_pre + seq![action] =~= out@);
                    },
                    Err(_) => {
                    },
                }
            }
            i = i + 1;
        }
    }
    proof {
        if i >= n {
            assert(candidates@.subrange(n as int, n as int) =~= Seq::<EvictCandidate>::empty());
        }
    }
    Ok(out)
}

/// Law: an evictor with no privilege at all — not the delegate
/// authority, market not at capacity — evicts nobody, whatever the
/// candidates' balances, as long as no candidate's seat is fully empty
/// (an empty seat may be cleaned up by anyone, even without privilege).
pub proof fn lemma_no_privilege_evicts_nothing(
    record: SeatManager,
    evictor: Identity,
    rent: u64,
    cands: Seq<EvictCandidate>,
)
    requires
        evictor != record.authority,
        forall|k: int|
            0 <= k < cands.len() && (#[trigger] cands[k].trader_state) is Some
                ==> !cands[k].trader_state->Some_0.seat_is_empty_spec(),
    ensures
        evict_batch_spec(record, evictor, false, rent, cands) == Ok::<
            Seq<EvictionAction>,
            SeatManagerError,
        >(Seq::<EvictionAction>::empty()),
    decreases cands.len(),
{
    if cands.len() > 0 {
        let c = cands[0];
        assert(c.trader_state is Some ==> !c.trader_state->Some_0.seat_is_empty_spec());
        assert(candidate_skipped(record, c, false));
        assert(forall|k: int|
            0 <= k < cands.drop_first().len() ==> cands.drop_first()[k] == cands[k + 1]);
        lemma_no_privilege_evicts_nothing(record, evictor, rent, cands.drop_first());
    }
}

/// Law: with partial privilege (evictor is not the authority, market at
/// capacity), once the first non-skipped candidate has a non-empty seat
/// and proper token accounts, exactly that one candidate is evicted and
/// the rest of the batch — eligible empty seats included — is left
/// alone.
pub proof fn lemma_partial_privilege_single_eviction(
    record: SeatManager,
    evictor: Identity,
    rent: u64,
    cands: Seq<EvictCandidate>,
    i: int,
)
    requires
        evictor != record.authority,
        0 <= i < cands.len(),
        forall|k: int| 0 <= k < i ==> candidate_skipped(record, #[trigger] cands[k], true),
        !candidate_skipped(record, cands[i], true),
        !candidate_missing_backup(cands[i]),
        !cands[i].trader_state->Some_0.seat_is_empty_spec(),
    ensures
        evict_batch_spec(record, evictor, true, rent, cands) == Ok::<
            Seq<EvictionAction>,
            SeatManagerError,
        >(seq![action_for_spec(cands[i], rent)]),
    decreases i,
{
    if i == 0 {
        assert(evict_batch_spec(record, evictor, true, rent, cands) == Ok::<
            Seq<EvictionAction>,
            SeatManagerError,
        >(seq![action_for_spec(cands[0], rent)]));
    } else {
        assert(candidate_skipped(record, cands[0], true));
        assert(forall|k: int|
            0 <= k < cands.drop_first().len() ==> cands.drop_first()[k] == cands[k + 1]);
        lemma_partial_privilege_single_eviction(record, evictor, rent, cands.drop_first(), i - 1);
        assert(cands.drop_first()[i - 1] == cands[i]);
    }
}

} // verus!
