//! The opaque hashing primitive and the leaf rule built on it.
//!
//! The Merkleizer consumes the primitive as an opaque function from byte
//! strings to 32-byte digests. Collision avoidance is delegated to the
//! primitive; this layer only guarantees that it is invoked consistently:
//! a scalar contributes its fixed-width encoding zero-padded to one 32-byte
//! leaf chunk, a value wider than a chunk contributes the digest of its
//! encoding, and composites combine their parts' chunks in declaration
//! order.

use vstd::prelude::*;

verus! {

use vstd::bytes::spec_u64_to_le_bytes;
use crate::codec::append_u64;

/// The digest the opaque hashing primitive assigns to a byte string: a
/// function of the bytes alone, identical in every process and on every
/// machine.
pub uninterp spec fn hash_of(input: Seq<u8>) -> Seq<u8>;

/// Relies on sha2's `Digest::digest` for `Sha256`: the digest is exactly
/// 32 bytes and depends on the input bytes alone.
#[verifier::external_body]
pub(crate) fn hash32(input: &Vec<u8>) -> (r: Vec<u8>)
    ensures
        r@ == hash_of(input@),
        r@.len() == 32,
{
    <sha2::Sha256 as sha2::Digest>::digest(input.as_slice()).to_vec()
}

/// The leaf chunk of a 64-bit scalar: its eight-byte little-endian
/// encoding, zero-padded to one 32-byte chunk.
pub open spec fn u64_leaf(x: u64) -> Seq<u8> {
    spec_u64_to_le_bytes(x) + Seq::new(24, |k: int| 0u8)
}

/// Append the 32-byte leaf chunk of `x` to `buf`.
pub fn append_u64_leaf(buf: &mut Vec<u8>, x: u64)
    ensures
        final(buf)@ == old(buf)@ + u64_leaf(x),
        final(buf)@.len() == old(buf)@.len() + 32,
{
    append_u64(buf, x);
    let ghost mid = buf@;
    let mut k: usize = 0;
    while k < 24
        invariant
            k <= 24,
            buf@ == mid + Seq::new(k as nat, |j: int| 0u8),
        decreases 24 - k,
    {
        buf.push(0u8);
        assert(mid + Seq::new(k as nat, |j: int| 0u8) + seq![0u8]
            =~= mid + Seq::new((k + 1) as nat, |j: int| 0u8));
        k = k + 1;
    }
    assert(buf@ =~= old(buf)@ + u64_leaf(x));
    proof {
        vstd::bytes::lemma_auto_spec_u64_to_from_le_bytes();
    }
}

} // verus!
