//! Blocks of the beacon chain.

use vstd::prelude::*;

verus! {

use vstd::bytes::spec_u64_to_le_bytes;
use crate::codec::{DecodeError, dec_u64, append_u64, append_bytes, decode_u64};
use crate::codec::{lemma_dec_u64_of_enc, lemma_subrange_split};
use crate::hash256::{Hash256, dec_hash256};
use crate::signature::{Signature, dec_signature, SIGNATURE_WIDTH};
use crate::eth1_data::{Eth1Data, Eth1DataView, eth1_view_wf, eth1_ssz, dec_eth1, eth1_tree_root, lemma_dec_eth1_of_enc};
use crate::body::{BeaconBlockBody, BeaconBlockBodyView, body_view_wf, body_view_empty, body_ssz, dec_body, body_tree_root, lemma_dec_body_of_enc};
use crate::chain_spec::ChainSpec;
use crate::proposal::Proposal;
use crate::hashing::{hash_of, hash32, u64_leaf, append_u64_leaf};

/// A block of the beacon chain: the atomic unit of chain progress.
///
/// The trailing `signature` is the one field excluded when computing the
/// signing root.
#[derive(Debug, Clone, PartialEq)]
pub struct BeaconBlock {
    pub slot: u64,
    pub parent_root: Hash256,
    pub state_root: Hash256,
    pub randao_reveal: Signature,
    pub eth1_data: Eth1Data,
    pub body: BeaconBlockBody,
    pub signature: Signature,
}

/// The mathematical model of a block.
#[verifier::ext_equal]
pub ghost struct BeaconBlockView {
    pub slot: u64,
    pub parent_root: Seq<u8>,
    pub state_root: Seq<u8>,
    pub randao_reveal: Seq<u8>,
    pub eth1_data: Eth1DataView,
    pub body: BeaconBlockBodyView,
    pub signature: Seq<u8>,
}

impl View for BeaconBlock {
    type V = BeaconBlockView;

    open spec fn view(&self) -> BeaconBlockView {
        BeaconBlockView {
            slot: self.slot,
            parent_root: self.parent_root@,
            state_root: self.state_root@,
            randao_reveal: self.randao_reveal@,
            eth1_data: self.eth1_data@,
            body: self.body@,
            signature: self.signature@,
        }
    }
}

/// Every fixed-width field has its canonical width and every sequence of
/// the body fits its prefixes: the data model's static shape.
pub open spec fn block_view_wf(v: BeaconBlockView) -> bool {
    &&& v.parent_root.len() == 32
    &&& v.state_root.len() == 32
    &&& v.randao_reveal.len() == SIGNATURE_WIDTH
    &&& eth1_view_wf(v.eth1_data)
    &&& body_view_wf(v.body)
    &&& v.signature.len() == SIGNATURE_WIDTH
}

/// The canonical encoding of a block: its seven fields in declaration
/// order, each field's encoding at its own width.
pub open spec fn block_ssz(v: BeaconBlockView) -> Seq<u8> {
    spec_u64_to_le_bytes(v.slot) + v.parent_root + v.state_root + v.randao_reveal + eth1_ssz(
        v.eth1_data,
    ) + body_ssz(v.body) + v.signature
}

/// The block and next cursor read at cursor `i`: the seven fields in
/// declaration order, each cursor threaded to the next field.
pub open spec fn dec_block(b: Seq<u8>, i: int) -> Option<(BeaconBlockView, int)> {
    match dec_u64(b, i) {
        None => None,
        Some((slot, j1)) => match dec_hash256(b, j1) {
            None => None,
            Some((parent_root, j2)) => match dec_hash256(b, j2) {
                None => None,
                Some((state_root, j3)) => match dec_signature(b, j3) {
                    None => None,
                    Some((randao_reveal, j4)) => match dec_eth1(b, j4) {
                        None => None,
                        Some((eth1_data, j5)) => match dec_body(b, j5) {
                            None => None,
                            Some((body, j6)) => match dec_signature(b, j6) {
                                None => None,
                                Some((signature, j7)) => Some(
                                    (
                                        BeaconBlockView {
                                            slot,
                                            parent_root,
                                            state_root,
                                            randao_reveal,
                                            eth1_data,
                                            body,
                                            signature,
                                        },
                                        j7,
                                    ),
                                ),
                            },
                        },
                    },
                },
            },
        },
    }
}

/// The leaf chunks of the fields a signer commits to: every field but the
/// trailing signature, in declaration order.
pub open spec fn block_signed_chunks(v: BeaconBlockView) -> Seq<u8> {
    u64_leaf(v.slot) + v.parent_root + v.state_root + hash_of(v.randao_reveal) + eth1_tree_root(
        v.eth1_data,
    ) + body_tree_root(v.body)
}

/// The commitment digest of a block: the combine of all seven field
/// chunks, in declaration order.
pub open spec fn block_tree_root(v: BeaconBlockView) -> Seq<u8> {
    hash_of(block_signed_chunks(v) + hash_of(v.signature))
}

/// The signing root of a block: the combine with the signature field
/// removed from the field list, so the combine's arity changes too.
pub open spec fn block_signing_root(v: BeaconBlockView) -> Seq<u8> {
    hash_of(block_signed_chunks(v))
}

impl BeaconBlock {
    /// The data model's static shape.
    pub open spec fn wf(&self) -> bool {
        block_view_wf(self@)
    }

    /// Produce the first block of the beacon chain: slot from the
    /// configured genesis slot, sentinel parent root and signatures, a
    /// zeroed deposit snapshot and an empty body. Its `parent_root` is a
    /// sentinel, never a real digest.
    pub fn genesis(state_root: Hash256, spec: &ChainSpec) -> (r: BeaconBlock)
        requires
            state_root.wf(),
            spec.wf(),
        ensures
            r@.slot == spec.genesis_slot,
            r@.parent_root == spec.zero_hash@,
            r@.state_root == state_root@,
            r@.randao_reveal == spec.empty_signature@,
            r@.eth1_data.deposit_root == spec.zero_hash@,
            r@.eth1_data.block_hash == spec.zero_hash@,
            body_view_empty(r@.body),
            r@.signature == spec.empty_signature@,
            r.wf(),
    {
        BeaconBlock {
            slot: spec.genesis_slot,
            parent_root: spec.zero_hash.duplicate(),
            state_root,
            randao_reveal: spec.empty_signature.duplicate(),
            eth1_data: Eth1Data {
                deposit_root: spec.zero_hash.duplicate(),
                block_hash: spec.zero_hash.duplicate(),
            },
            body: BeaconBlockBody::empty(),
            signature: spec.empty_signature.duplicate(),
        }
    }

    /// Append the canonical encoding of `self` to `buf`.
    pub fn ssz_append(&self, buf: &mut Vec<u8>)
        requires
            self.wf(),
        ensures
            final(buf)@ == old(buf)@ + block_ssz(self@),
    {
        append_u64(buf, self.slot);
        self.parent_root.ssz_append(buf);
        self.state_root.ssz_append(buf);
        self.randao_reveal.ssz_append(buf);
        self.eth1_data.ssz_append(buf);
        self.body.ssz_append(buf);
        self.signature.ssz_append(buf);
        assert(buf@ =~= old(buf)@ + block_ssz(self@));
    }

    /// The canonical encoding of `self`.
    pub fn ssz_encode(&self) -> (r: Vec<u8>)
        requires
            self.wf(),
        ensures
            r@ == block_ssz(self@),
    {
        let mut buf: Vec<u8> = Vec::new();
        self.ssz_append(&mut buf);
        buf
    }

    /// Decode a block at cursor `offset`, returning the block and the
    /// cursor one past its encoding. On any failure no partially
    /// constructed value escapes.
    pub fn ssz_decode(bytes: &Vec<u8>, offset: usize) -> (r: Result<
        (BeaconBlock, usize),
        DecodeError,
    >)
        ensures
            match r {
                Ok((v, j)) => dec_block(bytes@, offset as int) == Some((v@, j as int)) && v.wf(),
                Err(e) => e == DecodeError::Truncated && dec_block(bytes@, offset as int) is None,
            },
    {
        let (slot, j1) = match decode_u64(bytes, offset) {
            Ok(p) => p,
            Err(e) => {
                return Err(e);
            },
        };
        let (parent_root, j2) = match Hash256::ssz_decode(bytes, j1) {
            Ok(p) => p,
            Err(e) => {
                return Err(e);
            },
        };
        let (state_root, j3) = match Hash256::ssz_decode(bytes, j2) {
            Ok(p) => p,
            Err(e) => {
                return Err(e);
            },
        };
        let (randao_reveal, j4) = match Signature::ssz_decode(bytes, j3) {
            Ok(p) => p,
            Err(e) => {
                return Err(e);
            },
        };
        let (eth1_data, j5) = match Eth1Data::ssz_decode(bytes, j4) {
            Ok(p) => p,
            Err(e) => {
                return Err(e);
            },
        };
        let (body, j6) = match BeaconBlockBody::ssz_decode(bytes, j5) {
            Ok(p) => p,
            Err(e) => {
                return Err(e);
            },
        };
        let (signature, j7) = match Signature::ssz_decode(bytes, j6) {
            Ok(p) => p,
            Err(e) => {
                return Err(e);
            },
        };
        let out = BeaconBlock {
            slot,
            parent_root,
            state_root,
            randao_reveal,
            eth1_data,
            body,
            signature,
        };
        Ok((out, j7))
    }

    /// Decode a block from a whole input: trailing bytes are refused.
    pub fn from_ssz_bytes(bytes: &Vec<u8>) -> (r: Result<BeaconBlock, DecodeError>)
        ensures
            match r {
                Ok(v) => dec_block(bytes@, 0) == Some((v@, bytes@.len() as int)) && v.wf(),
                Err(DecodeError::Truncated) => dec_block(bytes@, 0) is None,
                Err(DecodeError::TrailingBytes) => (match dec_block(bytes@, 0) {
                    Some((v, j)) => j < bytes@.len(),
                    None => false,
                }),
                Err(DecodeError::InvalidFixedWidth) => false,
            },
    {
        match BeaconBlock::ssz_decode(bytes, 0) {
            Ok((v, j)) => {
                if j < bytes.len() {
                    Err(DecodeError::TrailingBytes)
                } else {
                    Ok(v)
                }
            },
            Err(e) => Err(e),
        }
    }

    /// The leaf chunks of the signed fields, concatenated.
    fn signed_chunks(&self) -> (r: Vec<u8>)
        requires
            self.wf(),
        ensures
            r@ == block_signed_chunks(self@),
    {
        let mut chunks: Vec<u8> = Vec::new();
        append_u64_leaf(&mut chunks, self.slot);
        self.parent_root.ssz_append(&mut chunks);
        self.state_root.ssz_append(&mut chunks);
        let randao_root = hash32(&self.randao_reveal.bytes);
        append_bytes(&mut chunks, &randao_root);
        let eth1_root = self.eth1_data.hash_tree_root();
        append_bytes(&mut chunks, &eth1_root);
        let body_root = self.body.hash_tree_root();
        append_bytes(&mut chunks, &body_root);
        assert(chunks@ =~= block_signed_chunks(self@));
        chunks
    }

    /// The 32-byte commitment digest of `self`: a pure function of all
    /// seven field values, with field order part of the commitment.
    pub fn hash_tree_root(&self) -> (r: Vec<u8>)
        requires
            self.wf(),
        ensures
            r@ == block_tree_root(self@),
            r@.len() == 32,
    {
        let mut chunks = self.signed_chunks();
        let sig_root = hash32(&self.signature.bytes);
        append_bytes(&mut chunks, &sig_root);
        hash32(&chunks)
    }

    /// The 32-byte signing root of `self`: the commitment with the
    /// signature field removed, the message a signature is computed over.
    /// Callers must never sign the full commitment.
    pub fn signed_root(&self) -> (r: Vec<u8>)
        requires
            self.wf(),
        ensures
            r@ == block_signing_root(self@),
            r@.len() == 32,
    {
        let chunks = self.signed_chunks();
        hash32(&chunks)
    }

    /// The commitment digest of the block, as a digest value.
    pub fn canonical_root(&self) -> (r: Hash256)
        requires
            self.wf(),
        ensures
            r@ == block_tree_root(self@),
            r.wf(),
    {
        let root = self.hash_tree_root();
        Hash256::new(root)
    }

    /// An unsigned proposal for the block: its signing root (not its full
    /// commitment) as the message, the configured beacon-chain shard as
    /// context, and the empty-signature placeholder for a signer to fill.
    pub fn proposal(&self, spec: &ChainSpec) -> (r: Proposal)
        requires
            self.wf(),
            spec.wf(),
        ensures
            r@.slot == self@.slot,
            r@.shard == spec.beacon_chain_shard_number,
            r@.block_root == block_signing_root(self@),
            r@.signature == spec.empty_signature@,
            r.wf(),
    {
        let root = self.signed_root();
        Proposal {
            slot: self.slot,
            shard: spec.beacon_chain_shard_number,
            block_root: Hash256::new(root),
            signature: spec.empty_signature.duplicate(),
        }
    }
}

/// Decoding the canonical encoding of any well-formed block, embedded at
/// any cursor of a larger stream, reads back exactly that block.
pub proof fn lemma_dec_block_of_enc(b: Seq<u8>, i: int, v: BeaconBlockView)
    requires
        block_view_wf(v),
        0 <= i,
        i + block_ssz(v).len() <= b.len(),
        b.subrange(i, i + block_ssz(v).len()) == block_ssz(v),
    ensures
        dec_block(b, i) == Some((v, i + block_ssz(v).len())),
{
    vstd::bytes::lemma_auto_spec_u64_to_from_le_bytes();
    let e1 = spec_u64_to_le_bytes(v.slot);
    let e2 = v.parent_root;
    let e3 = v.state_root;
    let e4 = v.randao_reveal;
    let e5 = eth1_ssz(v.eth1_data);
    let e6 = body_ssz(v.body);
    let e7 = v.signature;
    assert(block_ssz(v) =~= e1 + (e2 + (e3 + (e4 + (e5 + (e6 + e7))))));
    let i1 = i + e1.len();
    let i2 = i1 + e2.len();
    let i3 = i2 + e3.len();
    let i4 = i3 + e4.len();
    let i5 = i4 + e5.len();
    let i6 = i5 + e6.len();
    let i7 = i6 + e7.len();
    lemma_subrange_split(b, i, e1, e2 + (e3 + (e4 + (e5 + (e6 + e7)))));
    lemma_subrange_split(b, i1, e2, e3 + (e4 + (e5 + (e6 + e7))));
    lemma_subrange_split(b, i2, e3, e4 + (e5 + (e6 + e7)));
    lemma_subrange_split(b, i3, e4, e5 + (e6 + e7));
    lemma_subrange_split(b, i4, e5, e6 + e7);
    lemma_subrange_split(b, i5, e6, e7);
    lemma_dec_u64_of_enc(b, i, v.slot);
    lemma_dec_eth1_of_enc(b, i4, v.eth1_data);
    lemma_dec_body_of_enc(b, i5, v.body);
    assert(dec_block(b, i) == Some((v, i7)));
}

/// Round trip: decoding an encoded block yields the block back, field for
/// field, and consumes the whole encoding.
pub proof fn lemma_block_round_trip(v: BeaconBlockView)
    requires
        block_view_wf(v),
    ensures
        dec_block(block_ssz(v), 0) == Some((v, block_ssz(v).len() as int)),
{
    let b = block_ssz(v);
    assert(b.subrange(0, b.len() as int) =~= b);
    lemma_dec_block_of_enc(b, 0, v);
}

/// The signing root excludes the signature: two blocks that agree on
/// every field but `signature` have the same signing root.
pub proof fn lemma_signing_root_excludes_signature(v1: BeaconBlockView, v2: BeaconBlockView)
    requires
        v1.slot == v2.slot,
        v1.parent_root == v2.parent_root,
        v1.state_root == v2.state_root,
        v1.randao_reveal == v2.randao_reveal,
        v1.eth1_data == v2.eth1_data,
        v1.body == v2.body,
    ensures
        block_signing_root(v1) == block_signing_root(v2),
{
    assert(block_signed_chunks(v1) == block_signed_chunks(v2));
}

/// The commitment is deterministic: it is a pure function of the field
/// values, so two separately constructed, field-equal blocks have an
/// identical digest.
pub proof fn lemma_tree_root_deterministic(v1: BeaconBlockView, v2: BeaconBlockView)
    requires
        v1.slot == v2.slot,
        v1.parent_root == v2.parent_root,
        v1.state_root == v2.state_root,
        v1.randao_reveal == v2.randao_reveal,
        v1.eth1_data == v2.eth1_data,
        v1.body == v2.body,
        v1.signature == v2.signature,
    ensures
        block_tree_root(v1) == block_tree_root(v2),
{
    assert(v1 =~= v2);
}

} // verus!
