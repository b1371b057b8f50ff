//! The deposit-contract snapshot embedded in every block.

use vstd::prelude::*;

verus! {

use crate::codec::DecodeError;
use crate::codec::lemma_subrange_split;
use crate::hash256::{Hash256, dec_hash256};
use crate::hashing::{hash_of, hash32};

/// A snapshot of the deposit contract: the root of the deposit trie and
/// the hash of the block it was read at. Two 32-byte digests, opaque here.
#[derive(Debug, Clone, PartialEq)]
pub struct Eth1Data {
    pub deposit_root: Hash256,
    pub block_hash: Hash256,
}

/// The mathematical model of an [`Eth1Data`]: its two digests as byte
/// strings.
#[verifier::ext_equal]
pub ghost struct Eth1DataView {
    pub deposit_root: Seq<u8>,
    pub block_hash: Seq<u8>,
}

impl View for Eth1Data {
    type V = Eth1DataView;

    open spec fn view(&self) -> Eth1DataView {
        Eth1DataView { deposit_root: self.deposit_root@, block_hash: self.block_hash@ }
    }
}

/// Both digests are exactly 32 bytes wide.
pub open spec fn eth1_view_wf(v: Eth1DataView) -> bool {
    v.deposit_root.len() == 32 && v.block_hash.len() == 32
}

/// The canonical encoding: the two digests' raw bytes, in declaration
/// order.
pub open spec fn eth1_ssz(v: Eth1DataView) -> Seq<u8> {
    v.deposit_root + v.block_hash
}

/// The record and next cursor read at cursor `i`.
pub open spec fn dec_eth1(b: Seq<u8>, i: int) -> Option<(Eth1DataView, int)> {
    match dec_hash256(b, i) {
        None => None,
        Some((deposit_root, j1)) => match dec_hash256(b, j1) {
            None => None,
            Some((block_hash, j2)) => Some((Eth1DataView { deposit_root, block_hash }, j2)),
        },
    }
}

/// The commitment digest: the combine of the two digest leaves, in
/// declaration order.
pub open spec fn eth1_tree_root(v: Eth1DataView) -> Seq<u8> {
    hash_of(v.deposit_root + v.block_hash)
}

impl Eth1Data {
    /// Both fields well-formed.
    pub open spec fn wf(&self) -> bool {
        eth1_view_wf(self@)
    }

    /// Append the canonical encoding of `self` to `buf`.
    pub fn ssz_append(&self, buf: &mut Vec<u8>)
        requires
            self.wf(),
        ensures
            final(buf)@ == old(buf)@ + eth1_ssz(self@),
    {
        self.deposit_root.ssz_append(buf);
        self.block_hash.ssz_append(buf);
        assert(buf@ =~= old(buf)@ + eth1_ssz(self@));
    }

    /// The canonical encoding of `self`.
    pub fn ssz_encode(&self) -> (r: Vec<u8>)
        requires
            self.wf(),
        ensures
            r@ == eth1_ssz(self@),
    {
        let mut buf: Vec<u8> = Vec::new();
        self.ssz_append(&mut buf);
        buf
    }

    /// Decode a record at cursor `offset`.
    pub fn ssz_decode(bytes: &Vec<u8>, offset: usize) -> (r: Result<
        (Eth1Data, usize),
        DecodeError,
    >)
        ensures
            match r {
                Ok((v, j)) => dec_eth1(bytes@, offset as int) == Some((v@, j as int)) && v.wf(),
                Err(e) => e == DecodeError::Truncated && dec_eth1(bytes@, offset as int) is None,
            },
    {
        let (deposit_root, j1) = match Hash256::ssz_decode(bytes, offset) {
            Ok(p) => p,
            Err(e) => {
                return Err(e);
            },
        };
        let (block_hash, j2) = match Hash256::ssz_decode(bytes, j1) {
            Ok(p) => p,
            Err(e) => {
                return Err(e);
            },
        };
        Ok((Eth1Data { deposit_root, block_hash }, j2))
    }

    /// The 32-byte commitment digest of `self`.
    pub fn hash_tree_root(&self) -> (r: Vec<u8>)
        requires
            self.wf(),
        ensures
            r@ == eth1_tree_root(self@),
            r@.len() == 32,
    {
        let mut chunks: Vec<u8> = Vec::new();
        self.deposit_root.ssz_append(&mut chunks);
        self.block_hash.ssz_append(&mut chunks);
        assert(chunks@ =~= self@.deposit_root + self@.block_hash);
        hash32(&chunks)
    }
}

/// Decoding the canonical encoding of any well-formed record, embedded at
/// any cursor of a larger stream, reads back exactly that record.
pub proof fn lemma_dec_eth1_of_enc(b: Seq<u8>, i: int, v: Eth1DataView)
    requires
        eth1_view_wf(v),
        0 <= i,
        i + eth1_ssz(v).len() <= b.len(),
        b.subrange(i, i + eth1_ssz(v).len()) == eth1_ssz(v),
    ensures
        dec_eth1(b, i) == Some((v, i + eth1_ssz(v).len())),
{
    lemma_subrange_split(b, i, v.deposit_root, v.block_hash);
    assert(dec_eth1(b, i) == Some((v, i + 64)));
}

} // verus!
