//! The variable-length operation lists carried by a block.

use vstd::prelude::*;

verus! {

use crate::codec::DecodeError;
use crate::codec::lemma_subrange_split;
use crate::hashing::{hash_of, hash32};
use crate::payload::{
    Payload, payloads_view, payloads_wf, payload_list_ssz, dec_payload_list, payload_list_root,
    append_payload_list, decode_payload_list, payload_list_tree_root, lemma_dec_payload_list_of_enc,
};
use crate::codec::append_bytes;

/// The body of a block: six independently variable-length ordered
/// sequences of operation payloads. Element order is meaningful and is
/// preserved by both the codec and the Merkleizer.
#[derive(Debug, Clone, PartialEq)]
pub struct BeaconBlockBody {
    pub proposer_slashings: Vec<Payload>,
    pub attester_slashings: Vec<Payload>,
    pub attestations: Vec<Payload>,
    pub deposits: Vec<Payload>,
    pub voluntary_exits: Vec<Payload>,
    pub transfers: Vec<Payload>,
}

/// The mathematical model of a block body: its six payload sequences.
#[verifier::ext_equal]
pub ghost struct BeaconBlockBodyView {
    pub proposer_slashings: Seq<Seq<u8>>,
    pub attester_slashings: Seq<Seq<u8>>,
    pub attestations: Seq<Seq<u8>>,
    pub deposits: Seq<Seq<u8>>,
    pub voluntary_exits: Seq<Seq<u8>>,
    pub transfers: Seq<Seq<u8>>,
}

impl View for BeaconBlockBody {
    type V = BeaconBlockBodyView;

    open spec fn view(&self) -> BeaconBlockBodyView {
        BeaconBlockBodyView {
            proposer_slashings: payloads_view(self.proposer_slashings@),
            attester_slashings: payloads_view(self.attester_slashings@),
            attestations: payloads_view(self.attestations@),
            deposits: payloads_view(self.deposits@),
            voluntary_exits: payloads_view(self.voluntary_exits@),
            transfers: payloads_view(self.transfers@),
        }
    }
}

/// One payload sequence fits its count and length prefixes.
pub open spec fn payload_seq_wf(ps: Seq<Seq<u8>>) -> bool {
    ps.len() <= u64::MAX && payloads_wf(ps)
}

/// Every sequence of the body fits its prefixes.
pub open spec fn body_view_wf(v: BeaconBlockBodyView) -> bool {
    &&& payload_seq_wf(v.proposer_slashings)
    &&& payload_seq_wf(v.attester_slashings)
    &&& payload_seq_wf(v.attestations)
    &&& payload_seq_wf(v.deposits)
    &&& payload_seq_wf(v.voluntary_exits)
    &&& payload_seq_wf(v.transfers)
}

/// All payload sequences of the body are empty.
pub open spec fn body_view_empty(v: BeaconBlockBodyView) -> bool {
    &&& v.proposer_slashings.len() == 0
    &&& v.attester_slashings.len() == 0
    &&& v.attestations.len() == 0
    &&& v.deposits.len() == 0
    &&& v.voluntary_exits.len() == 0
    &&& v.transfers.len() == 0
}

/// The canonical encoding of a body: the encodings of its six sequences,
/// in declaration order.
pub open spec fn body_ssz(v: BeaconBlockBodyView) -> Seq<u8> {
    payload_list_ssz(v.proposer_slashings) + payload_list_ssz(v.attester_slashings)
        + payload_list_ssz(v.attestations) + payload_list_ssz(v.deposits) + payload_list_ssz(
        v.voluntary_exits,
    ) + payload_list_ssz(v.transfers)
}

/// The body and next cursor read at cursor `i`: its six sequences in
/// declaration order, each cursor threaded to the next field.
pub open spec fn dec_body(b: Seq<u8>, i: int) -> Option<(BeaconBlockBodyView, int)> {
    match dec_payload_list(b, i) {
        None => None,
        Some((proposer_slashings, j1)) => match dec_payload_list(b, j1) {
            None => None,
            Some((attester_slashings, j2)) => match dec_payload_list(b, j2) {
                None => None,
                Some((attestations, j3)) => match dec_payload_list(b, j3) {
                    None => None,
                    Some((deposits, j4)) => match dec_payload_list(b, j4) {
                        None => None,
                        Some((voluntary_exits, j5)) => match dec_payload_list(b, j5) {
                            None => None,
                            Some((transfers, j6)) => Some(
                                (
                                    BeaconBlockBodyView {
                                        proposer_slashings,
                                        attester_slashings,
                                        attestations,
                                        deposits,
                                        voluntary_exits,
                                        transfers,
                                    },
                                    j6,
                                ),
                            ),
                        },
                    },
                },
            },
        },
    }
}

/// The commitment digest of a body: the combine of its six sequence
/// digests, in declaration order.
pub open spec fn body_tree_root(v: BeaconBlockBodyView) -> Seq<u8> {
    hash_of(
        payload_list_root(v.proposer_slashings) + payload_list_root(v.attester_slashings)
            + payload_list_root(v.attestations) + payload_list_root(v.deposits)
            + payload_list_root(v.voluntary_exits) + payload_list_root(v.transfers),
    )
}

impl BeaconBlockBody {
    /// Every sequence fits its prefixes.
    pub open spec fn wf(&self) -> bool {
        body_view_wf(self@)
    }

    /// A body with all six sequences empty, as the genesis block carries.
    pub fn empty() -> (r: BeaconBlockBody)
        ensures
            body_view_empty(r@),
            r.wf(),
    {
        BeaconBlockBody {
            proposer_slashings: Vec::new(),
            attester_slashings: Vec::new(),
            attestations: Vec::new(),
            deposits: Vec::new(),
            voluntary_exits: Vec::new(),
            transfers: Vec::new(),
        }
    }

    /// Append the canonical encoding of `self` to `buf`.
    pub fn ssz_append(&self, buf: &mut Vec<u8>)
        requires
            self.wf(),
        ensures
            final(buf)@ == old(buf)@ + body_ssz(self@),
    {
        append_payload_list(buf, &self.proposer_slashings);
        append_payload_list(buf, &self.attester_slashings);
        append_payload_list(buf, &self.attestations);
        append_payload_list(buf, &self.deposits);
        append_payload_list(buf, &self.voluntary_exits);
        append_payload_list(buf, &self.transfers);
        assert(buf@ =~= old(buf)@ + body_ssz(self@));
    }

    /// The canonical encoding of `self`.
    pub fn ssz_encode(&self) -> (r: Vec<u8>)
        requires
            self.wf(),
        ensures
            r@ == body_ssz(self@),
    {
        let mut buf: Vec<u8> = Vec::new();
        self.ssz_append(&mut buf);
        buf
    }

    /// Decode a body at cursor `offset`.
    pub fn ssz_decode(bytes: &Vec<u8>, offset: usize) -> (r: Result<
        (BeaconBlockBody, usize),
        DecodeError,
    >)
        ensures
            match r {
                Ok((v, j)) => dec_body(bytes@, offset as int) == Some((v@, j as int)) && v.wf(),
                Err(e) => e == DecodeError::Truncated && dec_body(bytes@, offset as int) is None,
            },
    {
        let (proposer_slashings, j1) = match decode_payload_list(bytes, offset) {
            Ok(p) => p,
            Err(e) => {
                return Err(e);
            },
        };
        let (attester_slashings, j2) = match decode_payload_list(bytes, j1) {
            Ok(p) => p,
            Err(e) => {
                return Err(e);
            },
        };
        let (attestations, j3) = match decode_payload_list(bytes, j2) {
            Ok(p) => p,
            Err(e) => {
                return Err(e);
            },
        };
        let (deposits, j4) = match decode_payload_list(bytes, j3) {
            Ok(p) => p,
            Err(e) => {
                return Err(e);
            },
        };
        let (voluntary_exits, j5) = match decode_payload_list(bytes, j4) {
            Ok(p) => p,
            Err(e) => {
                return Err(e);
            },
        };
        let (transfers, j6) = match decode_payload_list(bytes, j5) {
            Ok(p) => p,
            Err(e) => {
                return Err(e);
            },
        };
        let n1 = proposer_slashings.len();
        let n2 = attester_slashings.len();
        let n3 = attestations.len();
        let n4 = deposits.len();
        let n5 = voluntary_exits.len();
        let n6 = transfers.len();
        assert(n1 <= u64::MAX && n2 <= u64::MAX && n3 <= u64::MAX && n4 <= u64::MAX && n5
            <= u64::MAX && n6 <= u64::MAX);
        let out = BeaconBlockBody {
            proposer_slashings,
            attester_slashings,
            attestations,
            deposits,
            voluntary_exits,
            transfers,
        };
        Ok((out, j6))
    }

    /// The 32-byte commitment digest of `self`.
    pub fn hash_tree_root(&self) -> (r: Vec<u8>)
        ensures
            r@ == body_tree_root(self@),
            r@.len() == 32,
    {
        let mut chunks: Vec<u8> = Vec::new();
        let d1 = payload_list_tree_root(&self.proposer_slashings);
        append_bytes(&mut chunks, &d1);
        let d2 = payload_list_tree_root(&self.attester_slashings);
        append_bytes(&mut chunks, &d2);
        let d3 = payload_list_tree_root(&self.attestations);
        append_bytes(&mut chunks, &d3);
        let d4 = payload_list_tree_root(&self.deposits);
        append_bytes(&mut chunks, &d4);
        let d5 = payload_list_tree_root(&self.voluntary_exits);
        append_bytes(&mut chunks, &d5);
        let d6 = payload_list_tree_root(&self.transfers);
        append_bytes(&mut chunks, &d6);
        assert(chunks@ =~= payload_list_root(self@.proposer_slashings) + payload_list_root(
            self@.attester_slashings,
        ) + payload_list_root(self@.attestations) + payload_list_root(self@.deposits)
            + payload_list_root(self@.voluntary_exits) + payload_list_root(self@.transfers));
        hash32(&chunks)
    }
}

/// Decoding the canonical encoding of any well-formed body, embedded at
/// any cursor of a larger stream, reads back exactly that body.
pub proof fn lemma_dec_body_of_enc(b: Seq<u8>, i: int, v: BeaconBlockBodyView)
    requires
        body_view_wf(v),
        0 <= i,
        i + body_ssz(v).len() <= b.len(),
        b.subrange(i, i + body_ssz(v).len()) == body_ssz(v),
    ensures
        dec_body(b, i) == Some((v, i + body_ssz(v).len())),
{
    let e1 = payload_list_ssz(v.proposer_slashings);
    let e2 = payload_list_ssz(v.attester_slashings);
    let e3 = payload_list_ssz(v.attestations);
    let e4 = payload_list_ssz(v.deposits);
    let e5 = payload_list_ssz(v.voluntary_exits);
    let e6 = payload_list_ssz(v.transfers);
    assert(body_ssz(v) =~= e1 + (e2 + (e3 + (e4 + (e5 + e6)))));
    let i1 = i + e1.len();
    let i2 = i1 + e2.len();
    let i3 = i2 + e3.len();
    let i4 = i3 + e4.len();
    let i5 = i4 + e5.len();
    let i6 = i5 + e6.len();
    lemma_subrange_split(b, i, e1, e2 + (e3 + (e4 + (e5 + e6))));
    lemma_subrange_split(b, i1, e2, e3 + (e4 + (e5 + e6)));
    lemma_subrange_split(b, i2, e3, e4 + (e5 + e6));
    lemma_subrange_split(b, i3, e4, e5 + e6);
    lemma_subrange_split(b, i4, e5, e6);
    lemma_dec_payload_list_of_enc(b, i, v.proposer_slashings);
    lemma_dec_payload_list_of_enc(b, i1, v.attester_slashings);
    lemma_dec_payload_list_of_enc(b, i2, v.attestations);
    lemma_dec_payload_list_of_enc(b, i3, v.deposits);
    lemma_dec_payload_list_of_enc(b, i4, v.voluntary_exits);
    lemma_dec_payload_list_of_enc(b, i5, v.transfers);
    assert(dec_body(b, i) == Some((v, i6)));
}

} // verus!
