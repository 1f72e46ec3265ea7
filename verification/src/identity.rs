//! Party identifiers.
//!
//! Every party (market, authority, successor, trader, evictor) is named
//! by a 256-bit identifier, held here as four 64-bit words.  The all-zero
//! identifier is the null identity: it marks empty maker slots, means
//! "no succession pending", and is the terminal authority value once the
//! delegate authority has been renounced.

use vstd::bytes::{
    lemma_auto_spec_u64_to_from_le_bytes, spec_u64_from_le_bytes, spec_u64_to_le_bytes,
    u64_from_le_bytes, u64_to_le_bytes,
};
use vstd::prelude::*;
use vstd::slice::slice_subrange;

use crate::error::SeatManagerError;

verus! {

/// A 256-bit party identifier, split into four little-endian 64-bit words.
#[derive(Clone, Copy, Debug, PartialEq, Eq, Structural)]
pub struct Identity {
    pub w0: u64,
    pub w1: u64,
    pub w2: u64,
    pub w3: u64,
}

/// The null identity: all words zero.
pub open spec fn null_identity() -> Identity {
    Identity { w0: 0, w1: 0, w2: 0, w3: 0 }
}

impl Identity {
    /// Builds an identifier from its four words.
    pub fn new(w0: u64, w1: u64, w2: u64, w3: u64) -> (r: Identity)
        ensures
            r == (Identity { w0, w1, w2, w3 }),
    {
        Identity { w0, w1, w2, w3 }
    }

    pub open spec fn is_null_spec(&self) -> bool {
        *self == null_identity()
    }

    /// True exactly when this is the null identity.
    pub fn is_null(&self) -> (r: bool)
        ensures
            r == self.is_null_spec(),
    {
        self.w0 == 0 && self.w1 == 0 && self.w2 == 0 && self.w3 == 0
    }
}

/// The identifier held in a 32-byte little-endian encoding.
pub open spec fn spec_identity_from_bytes(s: Seq<u8>) -> Identity
    recommends
        s.len() == 32,
{
    Identity {
        w0: spec_u64_from_le_bytes(s.subrange(0, 8)),
        w1: spec_u64_from_le_bytes(s.subrange(8, 16)),
        w2: spec_u64_from_le_bytes(s.subrange(16, 24)),
        w3: spec_u64_from_le_bytes(s.subrange(24, 32)),
    }
}

/// The 32-byte little-endian encoding of an identifier.
pub open spec fn spec_identity_to_bytes(id: Identity) -> Seq<u8> {
    spec_u64_to_le_bytes(id.w0) + spec_u64_to_le_bytes(id.w1) + spec_u64_to_le_bytes(id.w2)
        + spec_u64_to_le_bytes(id.w3)
}

/// The two byte encodings invert each other.
pub proof fn lemma_identity_bytes_round_trip(id: Identity, s: Seq<u8>)
    ensures
        spec_identity_from_bytes(spec_identity_to_bytes(id)) == id,
        s.len() == 32 ==> spec_identity_to_bytes(spec_identity_from_bytes(s)) == s,
{
    lemma_auto_spec_u64_to_from_le_bytes();
    let enc = spec_identity_to_bytes(id);
    assert(enc.subrange(0, 8) =~= spec_u64_to_le_bytes(id.w0));
    assert(enc.subrange(8, 16) =~= spec_u64_to_le_bytes(id.w1));
    assert(enc.subrange(16, 24) =~= spec_u64_to_le_bytes(id.w2));
    assert(enc.subrange(24, 32) =~= spec_u64_to_le_bytes(id.w3));
    if s.len() == 32 {
        let id2 = spec_identity_from_bytes(s);
        assert(spec_identity_to_bytes(id2) =~= s);
    }
}

/// Reads an identifier from exactly 32 bytes; any other length is
/// malformed request data.
pub fn parse_identity(data: &[u8]) -> (r: Result<Identity, SeatManagerError>)
    ensures
        match r {
            Ok(id) => data@.len() == 32 && id == spec_identity_from_bytes(data@),
            Err(e) => e == SeatManagerError::InvalidInstructionData && data@.len() != 32,
        },
{
    if data.len() != 32 {
        return Err(SeatManagerError::InvalidInstructionData);
    }
    proof {
        assert(data@.subrange(0, 32) =~= data@);
    }
    Ok(identity_from_bytes(data, 0))
}

/// Reads an identifier from 32 bytes starting at `offset`.
pub fn identity_from_bytes(data: &[u8], offset: usize) -> (r: Identity)
    requires
        offset <= usize::MAX - 32,
        offset + 32 <= data@.len(),
    ensures
        r == spec_identity_from_bytes(data@.subrange(offset as int, offset as int + 32)),
{
    let w0 = u64_from_le_bytes(slice_subrange(data, offset, offset + 8));
    let w1 = u64_from_le_bytes(slice_subrange(data, offset + 8, offset + 16));
    let w2 = u64_from_le_bytes(slice_subrange(data, offset + 16, offset + 24));
    let w3 = u64_from_le_bytes(slice_subrange(data, offset + 24, offset + 32));
    proof {
        let whole = data@.subrange(offset as int, offset as int + 32);
        assert(data@.subrange(offset as int, offset as int + 8) =~= whole.subrange(0, 8));
        assert(data@.subrange(offset as int + 8, offset as int + 16) =~= whole.subrange(8, 16));
        assert(data@.subrange(offset as int + 16, offset as int + 24) =~= whole.subrange(16, 24));
        assert(data@.subrange(offset as int + 24, offset as int + 32) =~= whole.subrange(24, 32));
    }
    Identity { w0, w1, w2, w3 }
}

impl Identity {
    /// Appends the 32-byte little-endian encoding of this identifier.
    pub fn write_bytes(&self, out: &mut Vec<u8>)
        ensures
            final(out)@ == old(out)@ + spec_identity_to_bytes(*self),
            spec_identity_to_bytes(*self).len() == 32,
    {
        proof {
            lemma_auto_spec_u64_to_from_le_bytes();
        }
        let b0 = u64_to_le_bytes(self.w0);
        let b1 = u64_to_le_bytes(self.w1);
        let b2 = u64_to_le_bytes(self.w2);
        let b3 = u64_to_le_bytes(self.w3);
        append_bytes(out, &b0);
        append_bytes(out, &b1);
        append_bytes(out, &b2);
        append_bytes(out, &b3);
        proof {
            assert(out@ =~= old(out)@ + spec_identity_to_bytes(*self));
        }
    }
}

/// Appends every byte of `src` to `out`.
pub fn append_bytes(out: &mut Vec<u8>, src: &Vec<u8>)
    ensures
        final(out)@ == old(out)@ + src@,
{
    let n = src.len();
    let mut i: usize = 0;
    while i < n
        invariant
            n as int == src@.len(),
            i <= n,
            out@ == old(out)@ + src@.subrange(0, i as int),
        decreases n - i,
    {
        out.push(src[i]);
        proof {
            assert(out@ =~= old(out)@ + src@.subrange(0, i as int + 1));
        }
        i = i + 1;
    }
    proof {
        assert(out@ =~= old(out)@ + src@);
    }
}

impl Default for Identity {
    /// The default identifier is the null identity.
    fn default() -> (r: Identity)
        ensures
            r == null_identity(),
    {
        Identity { w0: 0, w1: 0, w2: 0, w3: 0 }
    }
}

} // verus!
