//! Fork-identification records.

use vstd::prelude::*;

verus! {

use vstd::bytes::spec_u64_to_le_bytes;
use crate::codec::{DecodeError, dec_u64, append_u64, decode_u64};
use crate::codec::{lemma_dec_u64_of_enc, lemma_subrange_split};
use crate::hashing::{hash_of, hash32, u64_leaf, append_u64_leaf};

/// Identifies a fork of the beacon chain, to prevent replay of messages
/// across incompatible chain versions.
///
/// For a queried epoch the effective version is `previous_version` below
/// `epoch` and `current_version` from `epoch` on; the switch point itself
/// belongs to the new version.
#[derive(Debug, Clone, PartialEq, Eq, Structural)]
pub struct Fork {
    pub previous_version: u64,
    pub current_version: u64,
    pub epoch: u64,
}

/// The version a fork record assigns to `epoch`: a two-interval step
/// function whose switch point belongs to the current version.
pub open spec fn fork_version(f: Fork, epoch: u64) -> u64 {
    if epoch < f.epoch {
        f.previous_version
    } else {
        f.current_version
    }
}

/// The commitment digest of a fork record: the combine of its three
/// scalar leaf chunks, in declaration order.
pub open spec fn fork_tree_root(f: Fork) -> Seq<u8> {
    hash_of(u64_leaf(f.previous_version) + u64_leaf(f.current_version) + u64_leaf(f.epoch))
}

/// The canonical encoding of a fork record: its three 64-bit fields,
/// little-endian, in declaration order.
pub open spec fn fork_ssz(f: Fork) -> Seq<u8> {
    spec_u64_to_le_bytes(f.previous_version) + spec_u64_to_le_bytes(f.current_version)
        + spec_u64_to_le_bytes(f.epoch)
}

/// The fork record and next cursor read at cursor `i`, or `None` when the
/// stream is truncated.
pub open spec fn dec_fork(b: Seq<u8>, i: int) -> Option<(Fork, int)> {
    match dec_u64(b, i) {
        None => None,
        Some((previous_version, j1)) => match dec_u64(b, j1) {
            None => None,
            Some((current_version, j2)) => match dec_u64(b, j2) {
                None => None,
                Some((epoch, j3)) => Some((Fork { previous_version, current_version, epoch }, j3)),
            },
        },
    }
}

impl Fork {
    /// Return the fork version of the given `epoch`.
    pub fn get_fork_version(&self, epoch: u64) -> (r: u64)
        ensures
            r == fork_version(*self, epoch),
    {
        if epoch < self.epoch {
            return self.previous_version;
        }
        self.current_version
    }

    /// The 32-byte commitment digest of `self`: a pure function of the
    /// three field values, with field order part of the commitment.
    pub fn hash_tree_root(&self) -> (r: Vec<u8>)
        ensures
            r@ == fork_tree_root(*self),
            r@.len() == 32,
    {
        let mut chunks: Vec<u8> = Vec::new();
        append_u64_leaf(&mut chunks, self.previous_version);
        append_u64_leaf(&mut chunks, self.current_version);
        append_u64_leaf(&mut chunks, self.epoch);
        assert(chunks@ =~= u64_leaf(self.previous_version) + u64_leaf(self.current_version)
            + u64_leaf(self.epoch));
        hash32(&chunks)
    }

    /// Append the canonical encoding of `self` to `buf`.
    pub fn ssz_append(&self, buf: &mut Vec<u8>)
        ensures
            final(buf)@ == old(buf)@ + fork_ssz(*self),
    {
        append_u64(buf, self.previous_version);
        append_u64(buf, self.current_version);
        append_u64(buf, self.epoch);
        assert(buf@ =~= old(buf)@ + fork_ssz(*self));
    }

    /// The canonical encoding of `self`.
    pub fn ssz_encode(&self) -> (r: Vec<u8>)
        ensures
            r@ == fork_ssz(*self),
    {
        let mut buf: Vec<u8> = Vec::new();
        self.ssz_append(&mut buf);
        buf
    }

    /// Decode a fork record at cursor `offset`, returning the record and
    /// the cursor one past its encoding.
    pub fn ssz_decode(bytes: &Vec<u8>, offset: usize) -> (r: Result<(Fork, usize), DecodeError>)
        ensures
            match r {
                Ok((v, j)) => dec_fork(bytes@, offset as int) == Some((v, j as int)),
                Err(e) => e == DecodeError::Truncated && dec_fork(bytes@, offset as int) is None,
            },
    {
        let (previous_version, j1) = match decode_u64(bytes, offset) {
            Ok(p) => p,
            Err(e) => {
                return Err(e);
            },
        };
        let (current_version, j2) = match decode_u64(bytes, j1) {
            Ok(p) => p,
            Err(e) => {
                return Err(e);
            },
        };
        let (epoch, j3) = match decode_u64(bytes, j2) {
            Ok(p) => p,
            Err(e) => {
                return Err(e);
            },
        };
        Ok((Fork { previous_version, current_version, epoch }, j3))
    }

    /// Decode a fork record from a whole input: trailing bytes are refused.
    pub fn from_ssz_bytes(bytes: &Vec<u8>) -> (r: Result<Fork, DecodeError>)
        ensures
            match r {
                Ok(v) => dec_fork(bytes@, 0) == Some((v, bytes@.len() as int)),
                Err(DecodeError::Truncated) => dec_fork(bytes@, 0) is None,
                Err(DecodeError::TrailingBytes) => (match dec_fork(bytes@, 0) {
                    Some((v, j)) => j < bytes@.len(),
                    None => false,
                }),
                Err(DecodeError::InvalidFixedWidth) => false,
            },
    {
        match Fork::ssz_decode(bytes, 0) {
            Ok((v, j)) => {
                if j < bytes.len() {
                    Err(DecodeError::TrailingBytes)
                } else {
                    Ok(v)
                }
            },
            Err(e) => Err(e),
        }
    }
}

/// Decoding the canonical encoding of any fork record, embedded at any
/// cursor of a larger stream, reads back exactly that record.
pub proof fn lemma_dec_fork_of_enc(b: Seq<u8>, i: int, f: Fork)
    requires
        0 <= i,
        i + fork_ssz(f).len() <= b.len(),
        b.subrange(i, i + fork_ssz(f).len()) == fork_ssz(f),
    ensures
        dec_fork(b, i) == Some((f, i + fork_ssz(f).len())),
{
    vstd::bytes::lemma_auto_spec_u64_to_from_le_bytes();
    let e0 = spec_u64_to_le_bytes(f.previous_version);
    let e1 = spec_u64_to_le_bytes(f.current_version);
    let e2 = spec_u64_to_le_bytes(f.epoch);
    assert(fork_ssz(f) =~= e0 + (e1 + e2));
    lemma_subrange_split(b, i, e0, e1 + e2);
    lemma_subrange_split(b, i + 8, e1, e2);
    lemma_dec_u64_of_enc(b, i, f.previous_version);
    lemma_dec_u64_of_enc(b, i + 8, f.current_version);
    lemma_dec_u64_of_enc(b, i + 16, f.epoch);
}

/// Round trip: decoding an encoded fork record yields the record back and
/// consumes the whole encoding.
pub proof fn lemma_fork_round_trip(f: Fork)
    ensures
        dec_fork(fork_ssz(f), 0) == Some((f, fork_ssz(f).len() as int)),
{
    vstd::bytes::lemma_auto_spec_u64_to_from_le_bytes();
    assert(fork_ssz(f).subrange(0, fork_ssz(f).len() as int) =~= fork_ssz(f));
    lemma_dec_fork_of_enc(fork_ssz(f), 0, f);
}

} // verus!
