//! The delegate record: authority, successor, and the bounded maker
//! registry.
//!
//! The registry is a fixed arena of `MAX_DMMS` slots with an explicit
//! count.  The first `num_makers` slots hold the registered designated
//! market makers, pairwise distinct; every slot beyond the count holds
//! the null identity.  Removal swaps the removed entry with the last
//! live one, so insertion order is not preserved and callers must not
//! rely on maker order.

use vstd::bytes::{spec_u64_from_le_bytes, u64_from_le_bytes, u64_to_le_bytes};
use vstd::prelude::*;
use vstd::slice::slice_subrange;

use crate::identity::{
    append_bytes, identity_from_bytes, lemma_identity_bytes_round_trip, null_identity,
    spec_identity_from_bytes, spec_identity_to_bytes, Identity,
};
use crate::error::SeatManagerError;
use crate::MAX_DMMS;

verus! {

/// Size of the persisted delegate record: three identifiers, the maker
/// count, reserved header padding, the maker arena, and reserved
/// per-slot padding.
pub const RECORD_BYTES: usize = 6336;

pub struct SeatManager {
    /// The market this record governs.  Immutable after creation.
    pub market: Identity,
    /// The party currently empowered to act as delegate administrator.
    pub authority: Identity,
    /// The party named to receive the authority next; null when no
    /// succession is pending.
    pub successor: Identity,
    /// Number of live entries at the front of the maker arena.
    pub num_makers: u64,
    /// The maker arena, always exactly `MAX_DMMS` slots long.
    pub designated_market_makers: Vec<Identity>,
}

/// Successful removal of maker `t`, seen through registry membership.
pub open spec fn removes_maker(pre: SeatManager, post: SeatManager, t: Identity) -> bool {
    forall|x: Identity|
        #[trigger] post.maker_seq().contains(x) <==> (pre.maker_seq().contains(x) && x != t)
}

/// Successful insertion of maker `t`, seen through registry membership.
pub open spec fn inserts_maker(pre: SeatManager, post: SeatManager, t: Identity) -> bool {
    forall|x: Identity|
        #[trigger] post.maker_seq().contains(x) <==> (pre.maker_seq().contains(x) || x == t)
}

impl SeatManager {
    /// The registered makers: the first `num_makers` slots of the arena.
    pub open spec fn maker_seq(&self) -> Seq<Identity> {
        self.designated_market_makers@.take(self.num_makers as int)
    }

    /// Well-formedness: full-size arena, count in bounds, null beyond
    /// the count, no duplicates among the live entries.
    pub open spec fn wf(&self) -> bool {
        &&& self.designated_market_makers@.len() == MAX_DMMS as int
        &&& self.num_makers <= MAX_DMMS
        &&& (forall|i: int|
            self.num_makers as int <= i < MAX_DMMS as int
                ==> self.designated_market_makers@[i] == null_identity())
        &&& (forall|i: int, j: int|
            0 <= i < j < self.num_makers as int
                ==> self.designated_market_makers@[i] != self.designated_market_makers@[j])
    }

    /// A fresh record with an empty maker registry.
    pub fn new(market: Identity, authority: Identity, successor: Identity) -> (r: SeatManager)
        ensures
            r.wf(),
            r.market == market,
            r.authority == authority,
            r.successor == successor,
            r.num_makers == 0,
            r.maker_seq() == Seq::<Identity>::empty(),
    {
        let mut slots: Vec<Identity> = Vec::new();
        let mut i: u64 = 0;
        while i < MAX_DMMS
            invariant
                i <= MAX_DMMS,
                slots@.len() == i as int,
                forall|k: int| 0 <= k < i as int ==> slots@[k] == null_identity(),
            decreases MAX_DMMS - i,
        {
            slots.push(Identity::default());
            i = i + 1;
        }
        let r = SeatManager { market, authority, successor, num_makers: 0, designated_market_makers: slots };
        proof {
            assert(r.maker_seq() =~= Seq::<Identity>::empty());
        }
        r
    }

    /// Number of slots in the maker arena.
    pub fn capacity(&self) -> (r: usize)
        ensures
            r as int == self.designated_market_makers@.len(),
    {
        self.designated_market_makers.len()
    }

    /// True exactly when `trader` is a registered maker.
    pub fn contains(&self, trader: &Identity) -> (r: bool)
        requires
            self.wf(),
        ensures
            r == self.maker_seq().contains(*trader),
    {
        let n: usize = self.num_makers as usize;
        let mut i: usize = 0;
        while i < n
            invariant
                self.wf(),
                n as int == self.num_makers as int,
                i <= n,
                forall|k: int| 0 <= k < i as int ==> self.designated_market_makers@[k] != *trader,
            decreases n - i,
        {
            if self.designated_market_makers[i] == *trader {
                proof {
                    assert(self.maker_seq()[i as int] == *trader);
                }
                return true;
            }
            i = i + 1;
        }
        proof {
            assert forall|k: int| 0 <= k < self.maker_seq().len() implies self.maker_seq()[k]
                != *trader by {
                assert(self.designated_market_makers@[k] != *trader);
            }
        }
        false
    }

    /// True exactly when every slot of the arena is live.
    pub fn is_full(&self) -> (r: bool)
        ensures
            r == (self.num_makers as int == self.designated_market_makers@.len()),
    {
        self.num_makers == self.designated_market_makers.len() as u64
    }

    /// True exactly when no maker is registered.
    pub fn is_empty(&self) -> (r: bool)
        ensures
            r == (self.num_makers == 0),
    {
        self.num_makers == 0
    }

    /// Number of registered makers.
    pub fn len(&self) -> (r: usize)
        requires
            self.wf(),
        ensures
            r as int == self.num_makers as int,
    {
        self.num_makers as usize
    }

    /// Membership over the whole arena, live and empty slots alike.
    fn array_contains(&self, trader: &Identity) -> (r: bool)
        ensures
            r == self.designated_market_makers@.contains(*trader),
    {
        let n = self.designated_market_makers.len();
        let mut i: usize = 0;
        while i < n
            invariant
                n as int == self.designated_market_makers@.len(),
                i <= n,
                forall|k: int| 0 <= k < i as int ==> self.designated_market_makers@[k] != *trader,
            decreases n - i,
        {
            if self.designated_market_makers[i] == *trader {
                return true;
            }
            i = i + 1;
        }
        false
    }

    /// Registers `trader` as a maker.  Fails, without mutating, when the
    /// trader is already present (any arena slot, so the null identity
    /// can never be registered while an empty slot exists) or when the
    /// registry is full.  On success the trader is appended at the
    /// count, which is returned.
    pub fn insert(&mut self, trader: &Identity) -> (r: Option<usize>)
        requires
            old(self).wf(),
        ensures
            final(self).wf(),
            final(self).market == old(self).market,
            final(self).authority == old(self).authority,
            final(self).successor == old(self).successor,
            (r is None) <==> (old(self).maker_seq().contains(*trader) || *trader == null_identity()
                || old(self).num_makers == MAX_DMMS),
            match r {
                None => *final(self) == *old(self),
                Some(i) => {
                    &&& i as int == old(self).num_makers as int
                    &&& final(self).num_makers as int == old(self).num_makers as int + 1
                    &&& final(self).maker_seq() == old(self).maker_seq().push(*trader)
                    &&& inserts_maker(*old(self), *final(self), *trader)
                },
            },
    {
        if self.array_contains(trader) {
            proof {
                let k = choose|k: int|
                    0 <= k < self.designated_market_makers@.len()
                        && self.designated_market_makers@[k] == *trader;
                if k < self.num_makers as int {
                    assert(self.maker_seq()[k] == *trader);
                    assert(self.maker_seq().contains(*trader));
                }
            }
            return None;
        }
        if self.is_full() {
            return None;
        }
        proof {
            assert(self.num_makers < MAX_DMMS);
            if self.maker_seq().contains(*trader) {
                let k = choose|k: int|
                    0 <= k < self.maker_seq().len() && self.maker_seq()[k] == *trader;
                assert(self.designated_market_makers@[k] == *trader);
            }
            // an empty slot exists and holds null, so trader is not null
            assert(self.designated_market_makers@[self.num_makers as int] == null_identity());
        }
        let index: usize = self.num_makers as usize;
        let ghost pre = *self;
        self.designated_market_makers[index] = *trader;
        self.num_makers = self.num_makers + 1;
        proof {
            assert(self.maker_seq() =~= pre.maker_seq().push(*trader));
            assert forall|x: Identity| #[trigger] self.maker_seq().contains(x) implies (
            pre.maker_seq().contains(x) || x == *trader) by {
                let k = choose|k: int|
                    0 <= k < self.maker_seq().len() && self.maker_seq()[k] == x;
                if k < pre.maker_seq().len() {
                    assert(pre.maker_seq()[k] == x);
                }
            }
            assert forall|x: Identity| (pre.maker_seq().contains(x) || x == *trader)
                implies #[trigger] self.maker_seq().contains(x) by {
                if pre.maker_seq().contains(x) {
                    let k = choose|k: int|
                        0 <= k < pre.maker_seq().len() && pre.maker_seq()[k] == x;
                    assert(self.maker_seq()[k] == x);
                } else {
                    assert(self.maker_seq()[pre.maker_seq().len() as int] == x);
                }
            }
        }
        Some(index)
    }

    /// Removes maker `dmm` by swapping it with the last live entry and
    /// clearing the vacated slot.  Fails, without mutating, when `dmm`
    /// is not a registered maker.  Returns the index the maker occupied.
    pub fn remove(&mut self, dmm: &Identity) -> (r: Option<usize>)
        requires
            old(self).wf(),
        ensures
            final(self).wf(),
            final(self).market == old(self).market,
            final(self).authority == old(self).authority,
            final(self).successor == old(self).successor,
            (r is Some) <==> old(self).maker_seq().contains(*dmm),
            removes_maker(*old(self), *final(self), *dmm),
            match r {
                None => *final(self) == *old(self),
                Some(i) => {
                    &&& (i as int) < old(self).num_makers as int
                    &&& old(self).designated_market_makers@[i as int] == *dmm
                    &&& final(self).num_makers as int == old(self).num_makers as int - 1
                },
            },
    {
        let n: usize = self.num_makers as usize;
        let mut i: usize = 0;
        let mut found = false;
        while i < n && !found
            invariant
                self.wf(),
                n as int == self.num_makers as int,
                i <= n,
                !found ==> forall|k: int|
                    0 <= k < i as int ==> self.designated_market_makers@[k] != *dmm,
                found ==> i < n && self.designated_market_makers@[i as int] == *dmm,
            decreases n - i, (if found { 0int } else { 1int }),
        {
            if self.designated_market_makers[i] == *dmm {
                found = true;
            } else {
                i = i + 1;
            }
        }
        if !found {
            proof {
                assert forall|x: Identity| #[trigger] self.maker_seq().contains(x) implies (
                self.maker_seq().contains(x) && x != *dmm) by {
                    let k = choose|k: int|
                        0 <= k < self.maker_seq().len() && self.maker_seq()[k] == x;
                    assert(self.designated_market_makers@[k] != *dmm);
                }
                if self.maker_seq().contains(*dmm) {
                    let k = choose|k: int|
                        0 <= k < self.maker_seq().len() && self.maker_seq()[k] == *dmm;
                    assert(self.designated_market_makers@[k] == *dmm);
                }
            }
            return None;
        }
        let ghost pre = *self;
        let last_index: usize = n - 1;
        let last = self.designated_market_makers[last_index];
        self.designated_market_makers[i] = last;
        self.designated_market_makers[last_index] = Identity::default();
        self.num_makers = self.num_makers - 1;
        proof {
            lemma_swap_remove_membership(pre, *self, *dmm, i as int);
            assert(pre.maker_seq()[i as int] == *dmm);
            assert(pre.maker_seq().contains(*dmm));
        }
        Some(i)
    }

    /// Empties the maker registry: every slot becomes null and the count
    /// returns to zero.
    pub fn clear_all_dmms(&mut self)
        requires
            old(self).designated_market_makers@.len() == MAX_DMMS as int,
        ensures
            final(self).wf(),
            final(self).market == old(self).market,
            final(self).authority == old(self).authority,
            final(self).successor == old(self).successor,
            final(self).num_makers == 0,
            final(self).maker_seq() == Seq::<Identity>::empty(),
    {
        let n = self.designated_market_makers.len();
        let mut i: usize = 0;
        while i < n
            invariant
                n as int == self.designated_market_makers@.len(),
                self.designated_market_makers@.len() == MAX_DMMS as int,
                i <= n,
                self.market == old(self).market,
                self.authority == old(self).authority,
                self.successor == old(self).successor,
                forall|k: int| 0 <= k < i as int ==> self.designated_market_makers@[k] == null_identity(),
            decreases n - i,
        {
            self.designated_market_makers[i] = Identity::default();
            i = i + 1;
        }
        self.num_makers = 0;
        proof {
            assert(self.maker_seq() =~= Seq::<Identity>::empty());
        }
    }
}

/// After a swap-remove of the entry at live index `i` (holding `dmm`),
/// registry membership is exactly the old membership without `dmm`.
proof fn lemma_swap_remove_membership(pre: SeatManager, post: SeatManager, dmm: Identity, i: int)
    requires
        pre.wf(),
        0 <= i < pre.num_makers as int,
        pre.designated_market_makers@[i] == dmm,
        post.num_makers as int == pre.num_makers as int - 1,
        post.designated_market_makers@ == pre.designated_market_makers@.update(
            i,
            pre.designated_market_makers@[pre.num_makers as int - 1],
        ).update(pre.num_makers as int - 1, null_identity()),
    ensures
        post.wf(),
        removes_maker(pre, post, dmm),
{
    let n = pre.num_makers as int;
    let last = pre.designated_market_makers@[n - 1];
    assert forall|x: Identity| #[trigger] post.maker_seq().contains(x) implies (
    pre.maker_seq().contains(x) && x != dmm) by {
        let k = choose|k: int| 0 <= k < post.maker_seq().len() && post.maker_seq()[k] == x;
        if k == i {
            // the swapped-in entry came from live index n - 1
            assert(pre.maker_seq()[n - 1] == x);
        } else {
            assert(pre.maker_seq()[k] == x);
        }
        // distinctness of live entries keeps dmm out
        if x == dmm {
            if k == i {
                assert(pre.designated_market_makers@[n - 1] == dmm);
                assert(i < n - 1 ==> pre.designated_market_makers@[i] != pre.designated_market_makers@[n - 1]);
                assert(i == n - 1 ==> k < post.num_makers as int);
                assert(false);
            } else {
                assert(pre.designated_market_makers@[k] == dmm);
                assert(k != i);
                assert(false);
            }
        }
    }
    assert forall|x: Identity| (pre.maker_seq().contains(x) && x != dmm) implies #[trigger] post
        .maker_seq().contains(x) by {
        let k = choose|k: int| 0 <= k < pre.maker_seq().len() && pre.maker_seq()[k] == x;
        if k == i {
            // x would be dmm, excluded
            assert(false);
        } else if k == n - 1 {
            // the last live entry moved to index i, unless it was removed itself
            assert(i < n - 1);
            assert(post.maker_seq()[i] == x);
        } else {
            assert(post.maker_seq()[k] == x);
        }
    }
    assert forall|a: int, b: int| 0 <= a < b < post.num_makers as int implies post
        .designated_market_makers@[a] != post.designated_market_makers@[b] by {
        let pa = if a == i { n - 1 } else { a };
        let pb = if b == i { n - 1 } else { b };
        assert(pre.designated_market_makers@[pa] == post.designated_market_makers@[a]);
        assert(pre.designated_market_makers@[pb] == post.designated_market_makers@[b]);
    }
}

impl SeatManager {
    /// Reads a persisted record: the three identifiers, the maker
    /// count, and the maker arena at their fixed offsets.  Only a
    /// buffer of exactly the record size is accepted; the reserved
    /// padding is ignored.
    pub fn load(bytes: &[u8]) -> (r: Result<SeatManager, SeatManagerError>)
        ensures
            match r {
                Ok(sm) => {
                    &&& bytes@.len() == RECORD_BYTES as int
                    &&& sm.market == spec_identity_from_bytes(bytes@.subrange(0, 32))
                    &&& sm.authority == spec_identity_from_bytes(bytes@.subrange(32, 64))
                    &&& sm.successor == spec_identity_from_bytes(bytes@.subrange(64, 96))
                    &&& sm.num_makers == spec_u64_from_le_bytes(bytes@.subrange(96, 104))
                    &&& sm.designated_market_makers@.len() == MAX_DMMS as int
                    &&& (forall|j: int|
                        0 <= j < MAX_DMMS as int ==> #[trigger] sm.designated_market_makers@[j]
                            == spec_identity_from_bytes(
                            bytes@.subrange(192 + 32 * j, 192 + 32 * j + 32),
                        ))
                },
                Err(e) => {
                    &&& e == SeatManagerError::InvalidAccountData
                    &&& bytes@.len() != RECORD_BYTES as int
                },
            },
    {
        if bytes.len() != RECORD_BYTES {
            return Err(SeatManagerError::InvalidAccountData);
        }
        let market = identity_from_bytes(bytes, 0);
        let authority = identity_from_bytes(bytes, 32);
        let successor = identity_from_bytes(bytes, 64);
        let num_makers = u64_from_le_bytes(slice_subrange(bytes, 96, 104));
        let mut dmms: Vec<Identity> = Vec::new();
        let mut i: usize = 0;
        while i < 128
            invariant
                bytes@.len() == RECORD_BYTES as int,
                i <= 128,
                dmms@.len() == i as int,
                forall|j: int|
                    0 <= j < i as int ==> #[trigger] dmms@[j] == spec_identity_from_bytes(
                        bytes@.subrange(192 + 32 * j, 192 + 32 * j + 32),
                    ),
            decreases 128 - i,
        {
            let id = identity_from_bytes(bytes, 192 + 32 * i);
            dmms.push(id);
            i = i + 1;
        }
        Ok(SeatManager { market, authority, successor, num_makers, designated_market_makers: dmms })
    }

    /// Writes the record in its persisted layout: identifiers, count,
    /// and arena at their fixed offsets, all reserved padding zero.
    /// `load` reads back exactly this record's fields.
    pub fn to_bytes(&self) -> (r: Vec<u8>)
        requires
            self.designated_market_makers@.len() == MAX_DMMS as int,
        ensures
            r@.len() == RECORD_BYTES as int,
            spec_identity_from_bytes(r@.subrange(0, 32)) == self.market,
            spec_identity_from_bytes(r@.subrange(32, 64)) == self.authority,
            spec_identity_from_bytes(r@.subrange(64, 96)) == self.successor,
            spec_u64_from_le_bytes(r@.subrange(96, 104)) == self.num_makers,
            forall|j: int|
                0 <= j < MAX_DMMS as int ==> spec_identity_from_bytes(
                    #[trigger] r@.subrange(192 + 32 * j, 192 + 32 * j + 32),
                ) == self.designated_market_makers@[j],
            forall|k: int| 104 <= k < 192 ==> r@[k] == 0,
            forall|k: int| 4288 <= k < RECORD_BYTES as int ==> r@[k] == 0,
    {
        let mut out: Vec<u8> = Vec::new();
        self.market.write_bytes(&mut out);
        self.authority.write_bytes(&mut out);
        self.successor.write_bytes(&mut out);
        let count_bytes = u64_to_le_bytes(self.num_makers);
        append_bytes(&mut out, &count_bytes);
        append_zero_bytes(&mut out, 88);
        let ghost header = out@;
        proof {
            assert(header.len() == 192);
            assert(header.subrange(0, 32) =~= spec_identity_to_bytes(self.market));
            assert(header.subrange(32, 64) =~= spec_identity_to_bytes(self.authority));
            assert(header.subrange(64, 96) =~= spec_identity_to_bytes(self.successor));
            assert(header.subrange(96, 104) =~= vstd::bytes::spec_u64_to_le_bytes(
                self.num_makers,
            ));
        }
        let mut i: usize = 0;
        while i < 128
            invariant
                self.designated_market_makers@.len() == MAX_DMMS as int,
                i <= 128,
                header.len() == 192,
                forall|k: int| 104 <= k < 192 ==> header[k] == 0,
                out@.len() == 192 + 32 * (i as int),
                forall|k: int| 0 <= k < 192 ==> out@[k] == header[k],
                forall|j: int|
                    0 <= j < i as int ==> #[trigger] out@.subrange(192 + 32 * j, 192 + 32 * j + 32)
                        == spec_identity_to_bytes(self.designated_market_makers@[j]),
            decreases 128 - i,
        {
            let ghost pre = out@;
            let id = self.designated_market_makers[i];
            id.write_bytes(&mut out);
            proof {
                assert forall|j: int| 0 <= j < i as int + 1 implies #[trigger] out@.subrange(
                    192 + 32 * j,
                    192 + 32 * j + 32,
                ) == spec_identity_to_bytes(self.designated_market_makers@[j]) by {
                    if j < i as int {
                        assert(out@.subrange(192 + 32 * j, 192 + 32 * j + 32) =~= pre.subrange(
                            192 + 32 * j,
                            192 + 32 * j + 32,
                        ));
                    } else {
                        assert(out@.subrange(192 + 32 * j, 192 + 32 * j + 32)
                            =~= spec_identity_to_bytes(id));
                    }
                }
            }
            i = i + 1;
        }
        let ghost with_makers = out@;
        append_zero_bytes(&mut out, 2048);
        proof {
            assert(out@.len() == RECORD_BYTES as int);
            assert forall|j: int| 0 <= j < MAX_DMMS as int implies spec_identity_from_bytes(
                #[trigger] out@.subrange(192 + 32 * j, 192 + 32 * j + 32),
            ) == self.designated_market_makers@[j] by {
                assert(out@.subrange(192 + 32 * j, 192 + 32 * j + 32) =~= with_makers.subrange(
                    192 + 32 * j,
                    192 + 32 * j + 32,
                ));
                lemma_identity_bytes_round_trip(
                    self.designated_market_makers@[j],
                    out@.subrange(192 + 32 * j, 192 + 32 * j + 32),
                );
            }
            assert(out@.subrange(0, 32) =~= header.subrange(0, 32));
            assert(out@.subrange(32, 64) =~= header.subrange(32, 64));
            assert(out@.subrange(64, 96) =~= header.subrange(64, 96));
            assert(out@.subrange(96, 104) =~= header.subrange(96, 104));
            assert forall|k: int| 104 <= k < 192 implies out@[k] == 0 by {
                assert(out@[k] == with_makers[k]);
                assert(with_makers[k] == header[k]);
                assert(header[k] == 0);
            }
            lemma_identity_bytes_round_trip(self.market, out@.subrange(0, 32));
            lemma_identity_bytes_round_trip(self.authority, out@.subrange(32, 64));
            lemma_identity_bytes_round_trip(self.successor, out@.subrange(64, 96));
            vstd::bytes::lemma_auto_spec_u64_to_from_le_bytes();
        }
        out
    }

    /// Runtime check of the record invariant, for callers that read a
    /// persisted record they cannot otherwise trust.
    pub fn check_well_formed(&self) -> (r: bool)
        ensures
            r == self.wf(),
    {
        if self.designated_market_makers.len() as u64 != MAX_DMMS {
            return false;
        }
        if self.num_makers > MAX_DMMS {
            return false;
        }
        let n: usize = self.num_makers as usize;
        let mut i: usize = n;
        while i < 128
            invariant
                self.designated_market_makers@.len() == MAX_DMMS as int,
                self.num_makers <= MAX_DMMS,
                n as int == self.num_makers as int,
                n <= i <= 128,
                forall|k: int|
                    n as int <= k < i as int ==> self.designated_market_makers@[k]
                        == null_identity(),
            decreases 128 - i,
        {
            if !self.designated_market_makers[i].is_null() {
                return false;
            }
            i = i + 1;
        }
        let mut a: usize = 0;
        while a < n
            invariant
                self.designated_market_makers@.len() == MAX_DMMS as int,
                self.num_makers <= MAX_DMMS,
                n as int == self.num_makers as int,
                a <= n,
                forall|x: int, y: int|
                    0 <= x < y < n as int && x < a as int ==> self.designated_market_makers@[x]
                        != self.designated_market_makers@[y],
                forall|k: int|
                    n as int <= k < MAX_DMMS as int ==> self.designated_market_makers@[k]
                        == null_identity(),
            decreases n - a,
        {
            let mut b: usize = a + 1;
            while b < n
                invariant
                    self.designated_market_makers@.len() == MAX_DMMS as int,
                    self.num_makers <= MAX_DMMS,
                    n as int == self.num_makers as int,
                    a < n,
                    a < b <= n,
                    forall|y: int|
                        (a as int) < y < (b as int) ==> self.designated_market_makers@[a as int]
                            != self.designated_market_makers@[y],
                decreases n - b,
            {
                if self.designated_market_makers[a] == self.designated_market_makers[b] {
                    return false;
                }
                b = b + 1;
            }
            a = a + 1;
        }
        true
    }
}

/// Appends `count` zero bytes.
fn append_zero_bytes(out: &mut Vec<u8>, count: usize)
    ensures
        final(out)@.len() == old(out)@.len() + count,
        forall|k: int| 0 <= k < old(out)@.len() ==> final(out)@[k] == old(out)@[k],
        forall|k: int| old(out)@.len() <= k < final(out)@.len() ==> final(out)@[k] == 0,
{
    let mut i: usize = 0;
    while i < count
        invariant
            i <= count,
            out@.len() == old(out)@.len() + i as int,
            forall|k: int| 0 <= k < old(out)@.len() ==> out@[k] == old(out)@[k],
            forall|k: int| old(out)@.len() <= k < out@.len() ==> out@[k] == 0,
        decreases count - i,
    {
        out.push(0);
        i = i + 1;
    }
}

/// Law: removing a maker and then inserting a different maker never
/// resurrects the removed one — it is absent from the registry after
/// both steps.
pub proof fn lemma_remove_then_insert_no_resurrection(
    pre: SeatManager,
    mid: SeatManager,
    post: SeatManager,
    removed: Identity,
    added: Identity,
)
    requires
        removes_maker(pre, mid, removed),
        inserts_maker(mid, post, added),
        added != removed,
    ensures
        !post.maker_seq().contains(removed),
{
    if post.maker_seq().contains(removed) {
        assert(mid.maker_seq().contains(removed) || removed == added);
        assert(!mid.maker_seq().contains(removed));
        assert(false);
    }
}

} // verus!
