//! The signing message handed to a proposer.

use vstd::prelude::*;

verus! {

use vstd::bytes::spec_u64_to_le_bytes;
use crate::codec::{DecodeError, dec_u64, append_u64, append_bytes, decode_u64};
use crate::codec::{lemma_dec_u64_of_enc, lemma_subrange_split};
use crate::hash256::{Hash256, dec_hash256};
use crate::signature::{Signature, dec_signature, SIGNATURE_WIDTH};
use crate::hashing::{hash_of, hash32, u64_leaf, append_u64_leaf};

/// An unsigned proposal for a block: the message and context a signer
/// fills in. `block_root` is the signing root of the originating block,
/// not its full commitment; `signature` starts as the empty sentinel.
#[derive(Debug, Clone, PartialEq)]
pub struct Proposal {
    pub slot: u64,
    pub shard: u64,
    pub block_root: Hash256,
    pub signature: Signature,
}

/// The mathematical model of a proposal.
#[verifier::ext_equal]
pub ghost struct ProposalView {
    pub slot: u64,
    pub shard: u64,
    pub block_root: Seq<u8>,
    pub signature: Seq<u8>,
}

impl View for Proposal {
    type V = ProposalView;

    open spec fn view(&self) -> ProposalView {
        ProposalView {
            slot: self.slot,
            shard: self.shard,
            block_root: self.block_root@,
            signature: self.signature@,
        }
    }
}

/// Both byte fields have their canonical width.
pub open spec fn proposal_view_wf(v: ProposalView) -> bool {
    v.block_root.len() == 32 && v.signature.len() == SIGNATURE_WIDTH
}

/// The canonical encoding of a proposal: its four fields in declaration
/// order, each at its fixed width.
pub open spec fn proposal_ssz(v: ProposalView) -> Seq<u8> {
    spec_u64_to_le_bytes(v.slot) + spec_u64_to_le_bytes(v.shard) + v.block_root + v.signature
}

/// The proposal and next cursor read at cursor `i`.
pub open spec fn dec_proposal(b: Seq<u8>, i: int) -> Option<(ProposalView, int)> {
    match dec_u64(b, i) {
        None => None,
        Some((slot, j1)) => match dec_u64(b, j1) {
            None => None,
            Some((shard, j2)) => match dec_hash256(b, j2) {
                None => None,
                Some((block_root, j3)) => match dec_signature(b, j3) {
                    None => None,
                    Some((signature, j4)) => Some(
                        (ProposalView { slot, shard, block_root, signature }, j4),
                    ),
                },
            },
        },
    }
}

/// The leaf chunks of the fields a signer commits to: every field but the
/// trailing signature, in declaration order.
pub open spec fn proposal_signed_chunks(v: ProposalView) -> Seq<u8> {
    u64_leaf(v.slot) + u64_leaf(v.shard) + v.block_root
}

/// The commitment digest of a proposal: the combine of all four field
/// chunks, in declaration order.
pub open spec fn proposal_tree_root(v: ProposalView) -> Seq<u8> {
    hash_of(proposal_signed_chunks(v) + hash_of(v.signature))
}

/// The signing root of a proposal: the combine with the signature field
/// removed from the field list.
pub open spec fn proposal_signing_root(v: ProposalView) -> Seq<u8> {
    hash_of(proposal_signed_chunks(v))
}

impl Proposal {
    /// Both byte fields have their canonical width.
    pub open spec fn wf(&self) -> bool {
        proposal_view_wf(self@)
    }

    /// Append the canonical encoding of `self` to `buf`.
    pub fn ssz_append(&self, buf: &mut Vec<u8>)
        requires
            self.wf(),
        ensures
            final(buf)@ == old(buf)@ + proposal_ssz(self@),
    {
        append_u64(buf, self.slot);
        append_u64(buf, self.shard);
        self.block_root.ssz_append(buf);
        self.signature.ssz_append(buf);
        assert(buf@ =~= old(buf)@ + proposal_ssz(self@));
    }

    /// The canonical encoding of `self`.
    pub fn ssz_encode(&self) -> (r: Vec<u8>)
        requires
            self.wf(),
        ensures
            r@ == proposal_ssz(self@),
    {
        let mut buf: Vec<u8> = Vec::new();
        self.ssz_append(&mut buf);
        buf
    }

    /// Decode a proposal at cursor `offset`.
    pub fn ssz_decode(bytes: &Vec<u8>, offset: usize) -> (r: Result<
        (Proposal, usize),
        DecodeError,
    >)
        ensures
            match r {
                Ok((v, j)) => dec_proposal(bytes@, offset as int) == Some((v@, j as int))
                    && v.wf(),
                Err(e) => e == DecodeError::Truncated && dec_proposal(bytes@, offset as int)
                    is None,
            },
    {
        let (slot, j1) = match decode_u64(bytes, offset) {
            Ok(p) => p,
            Err(e) => {
                return Err(e);
            },
        };
        let (shard, j2) = match decode_u64(bytes, j1) {
            Ok(p) => p,
            Err(e) => {
                return Err(e);
            },
        };
        let (block_root, j3) = match Hash256::ssz_decode(bytes, j2) {
            Ok(p) => p,
            Err(e) => {
                return Err(e);
            },
        };
        let (signature, j4) = match Signature::ssz_decode(bytes, j3) {
            Ok(p) => p,
            Err(e) => {
                return Err(e);
            },
        };
        Ok((Proposal { slot, shard, block_root, signature }, j4))
    }

    /// The leaf chunks of the signed fields, concatenated.
    fn signed_chunks(&self) -> (r: Vec<u8>)
        requires
            self.wf(),
        ensures
            r@ == proposal_signed_chunks(self@),
    {
        let mut chunks: Vec<u8> = Vec::new();
        append_u64_leaf(&mut chunks, self.slot);
        append_u64_leaf(&mut chunks, self.shard);
        self.block_root.ssz_append(&mut chunks);
        assert(chunks@ =~= proposal_signed_chunks(self@));
        chunks
    }

    /// The 32-byte commitment digest of `self`: a pure function of all
    /// four field values.
    pub fn hash_tree_root(&self) -> (r: Vec<u8>)
        requires
            self.wf(),
        ensures
            r@ == proposal_tree_root(self@),
            r@.len() == 32,
    {
        let mut chunks = self.signed_chunks();
        let sig_root = hash32(&self.signature.bytes);
        append_bytes(&mut chunks, &sig_root);
        hash32(&chunks)
    }

    /// The 32-byte signing root of `self`: the commitment with the
    /// signature field removed, the message a signature is computed over.
    pub fn signed_root(&self) -> (r: Vec<u8>)
        requires
            self.wf(),
        ensures
            r@ == proposal_signing_root(self@),
            r@.len() == 32,
    {
        let chunks = self.signed_chunks();
        hash32(&chunks)
    }
}

/// Decoding the canonical encoding of any well-formed proposal, embedded
/// at any cursor of a larger stream, reads back exactly that proposal.
pub proof fn lemma_dec_proposal_of_enc(b: Seq<u8>, i: int, v: ProposalView)
    requires
        proposal_view_wf(v),
        0 <= i,
        i + proposal_ssz(v).len() <= b.len(),
        b.subrange(i, i + proposal_ssz(v).len()) == proposal_ssz(v),
    ensures
        dec_proposal(b, i) == Some((v, i + proposal_ssz(v).len())),
{
    vstd::bytes::lemma_auto_spec_u64_to_from_le_bytes();
    let e1 = spec_u64_to_le_bytes(v.slot);
    let e2 = spec_u64_to_le_bytes(v.shard);
    assert(proposal_ssz(v) =~= e1 + (e2 + (v.block_root + v.signature)));
    lemma_subrange_split(b, i, e1, e2 + (v.block_root + v.signature));
    lemma_subrange_split(b, i + 8, e2, v.block_root + v.signature);
    lemma_subrange_split(b, i + 16, v.block_root, v.signature);
    lemma_dec_u64_of_enc(b, i, v.slot);
    lemma_dec_u64_of_enc(b, i + 8, v.shard);
    assert(dec_proposal(b, i) == Some((v, i + proposal_ssz(v).len())));
}

/// Round trip: decoding an encoded proposal yields the proposal back and
/// consumes the whole encoding.
pub proof fn lemma_proposal_round_trip(v: ProposalView)
    requires
        proposal_view_wf(v),
    ensures
        dec_proposal(proposal_ssz(v), 0) == Some((v, proposal_ssz(v).len() as int)),
{
    let b = proposal_ssz(v);
    assert(b.subrange(0, b.len() as int) =~= b);
    lemma_dec_proposal_of_enc(b, 0, v);
}

} // verus!
