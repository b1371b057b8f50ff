//! Opaque body payloads and the codec and commitment rules for the
//! variable-length sequences that hold them.
//!
//! The operation payloads nested in a block body (slashings, attestations,
//! deposits, exits, transfers) are collaborator types: this layer consumes
//! them as opaque records with a canonical encoding, and commits to them by
//! the digest of that encoding. A sequence of payloads is encoded as its
//! element count followed by each element's encoding in order; its
//! commitment mixes the sequence's length into the combined element
//! digests, so sequences differing only in length never share a digest.

use vstd::prelude::*;

verus! {

use vstd::bytes::spec_u64_to_le_bytes;
use crate::codec::{DecodeError, dec_u64, append_u64, append_bytes, decode_u64, read_bytes};
use crate::codec::{lemma_dec_u64_of_enc, lemma_subrange_split};
use crate::hashing::{hash_of, hash32, u64_leaf, append_u64_leaf};

/// One opaque payload record, held as its canonical encoding.
#[derive(Debug, Clone, PartialEq)]
pub struct Payload {
    pub bytes: Vec<u8>,
}

impl View for Payload {
    type V = Seq<u8>;

    open spec fn view(&self) -> Seq<u8> {
        self.bytes@
    }
}

/// The models of a sequence of payloads.
pub open spec fn payloads_view(s: Seq<Payload>) -> Seq<Seq<u8>> {
    s.map_values(|p: Payload| p@)
}

/// Every payload is short enough for its length prefix.
pub open spec fn payloads_wf(ps: Seq<Seq<u8>>) -> bool {
    forall|k: int| 0 <= k < ps.len() ==> (#[trigger] ps[k]).len() <= u64::MAX
}

/// The canonical encoding of one payload: its byte length, then its bytes.
pub open spec fn payload_ssz(p: Seq<u8>) -> Seq<u8> {
    spec_u64_to_le_bytes(p.len() as u64) + p
}

/// The concatenated encodings of the payloads from position `idx` on.
pub open spec fn payloads_ssz_from(ps: Seq<Seq<u8>>, idx: int) -> Seq<u8>
    decreases ps.len() - idx,
{
    if 0 <= idx < ps.len() {
        payload_ssz(ps[idx]) + payloads_ssz_from(ps, idx + 1)
    } else {
        Seq::empty()
    }
}

/// The canonical encoding of a payload sequence: its element count, then
/// each element's encoding in order.
pub open spec fn payload_list_ssz(ps: Seq<Seq<u8>>) -> Seq<u8> {
    spec_u64_to_le_bytes(ps.len() as u64) + payloads_ssz_from(ps, 0)
}

/// The payload and next cursor read at cursor `i`.
pub open spec fn dec_payload(b: Seq<u8>, i: int) -> Option<(Seq<u8>, int)> {
    match dec_u64(b, i) {
        None => None,
        Some((l, j)) => if j + l <= b.len() {
            Some((b.subrange(j, j + l), j + l))
        } else {
            None
        },
    }
}

/// The `n` payloads and next cursor read at cursor `i`.
pub open spec fn dec_payloads(b: Seq<u8>, i: int, n: nat) -> Option<(Seq<Seq<u8>>, int)>
    decreases n,
{
    if n == 0 {
        Some((Seq::empty(), i))
    } else {
        match dec_payload(b, i) {
            None => None,
            Some((p, j)) => match dec_payloads(b, j, (n - 1) as nat) {
                None => None,
                Some((rest, k)) => Some((seq![p] + rest, k)),
            },
        }
    }
}

/// The payload sequence and next cursor read at cursor `i`: the element
/// count, then that many elements.
pub open spec fn dec_payload_list(b: Seq<u8>, i: int) -> Option<(Seq<Seq<u8>>, int)> {
    match dec_u64(b, i) {
        None => None,
        Some((n, j)) => dec_payloads(b, j, n as nat),
    }
}

/// The concatenated digests of the payloads from position `idx` on.
pub open spec fn payload_roots_from(ps: Seq<Seq<u8>>, idx: int) -> Seq<u8>
    decreases ps.len() - idx,
{
    if 0 <= idx < ps.len() {
        hash_of(ps[idx]) + payload_roots_from(ps, idx + 1)
    } else {
        Seq::empty()
    }
}

/// The commitment digest of a payload sequence: the combine of the
/// element digests in order, with the sequence's length mixed in. An
/// empty sequence has the well-defined digest of an empty combine and
/// length zero.
pub open spec fn payload_list_root(ps: Seq<Seq<u8>>) -> Seq<u8> {
    hash_of(hash_of(payload_roots_from(ps, 0)) + u64_leaf(ps.len() as u64))
}

impl Payload {
    /// Short enough for the length prefix of the codec.
    pub open spec fn wf(&self) -> bool {
        self@.len() <= u64::MAX
    }

    /// Wrap a canonical payload encoding as an opaque payload record.
    pub fn new(bytes: Vec<u8>) -> (r: Payload)
        ensures
            r@ == bytes@,
            r.wf(),
    {
        let n = bytes.len();
        assert(bytes@.len() == n && n <= u64::MAX);
        Payload { bytes }
    }

    /// Append the canonical encoding of `self` to `buf`.
    pub fn ssz_append(&self, buf: &mut Vec<u8>)
        requires
            self.wf(),
        ensures
            final(buf)@ == old(buf)@ + payload_ssz(self@),
    {
        append_u64(buf, self.bytes.len() as u64);
        append_bytes(buf, &self.bytes);
        assert(buf@ =~= old(buf)@ + payload_ssz(self@));
    }

    /// Decode one payload at cursor `offset`.
    pub fn ssz_decode(bytes: &Vec<u8>, offset: usize) -> (r: Result<(Payload, usize), DecodeError>)
        ensures
            match r {
                Ok((p, j)) => dec_payload(bytes@, offset as int) == Some((p@, j as int)) && p.wf(),
                Err(e) => e == DecodeError::Truncated && dec_payload(bytes@, offset as int)
                    is None,
            },
    {
        let (l, j) = match decode_u64(bytes, offset) {
            Ok(p) => p,
            Err(e) => {
                return Err(e);
            },
        };
        let n = bytes.len();
        if l > (n - j) as u64 {
            return Err(DecodeError::Truncated);
        }
        let width = l as usize;
        match read_bytes(bytes, j, width) {
            Ok((v, k)) => Ok((Payload { bytes: v }, k)),
            Err(e) => Err(e),
        }
    }
}

/// Append the encodings of the payloads of `items` from position `idx` on.
fn append_payloads_from(buf: &mut Vec<u8>, items: &Vec<Payload>, idx: usize)
    requires
        idx <= items@.len(),
        payloads_wf(payloads_view(items@)),
    ensures
        final(buf)@ == old(buf)@ + payloads_ssz_from(payloads_view(items@), idx as int),
    decreases items@.len() - idx,
{
    if idx < items.len() {
        assert(payloads_view(items@)[idx as int] == items@[idx as int]@);
        items[idx].ssz_append(buf);
        append_payloads_from(buf, items, idx + 1);
        assert(buf@ =~= old(buf)@ + payloads_ssz_from(payloads_view(items@), idx as int));
    }
}

/// Append the canonical encoding of a payload sequence to `buf`.
pub fn append_payload_list(buf: &mut Vec<u8>, items: &Vec<Payload>)
    requires
        payloads_wf(payloads_view(items@)),
    ensures
        final(buf)@ == old(buf)@ + payload_list_ssz(payloads_view(items@)),
{
    append_u64(buf, items.len() as u64);
    append_payloads_from(buf, items, 0);
    assert(buf@ =~= old(buf)@ + payload_list_ssz(payloads_view(items@)));
}

/// Decode `n` payloads at cursor `offset`.
fn decode_payloads(bytes: &Vec<u8>, offset: usize, n: u64) -> (r: Result<
    (Vec<Payload>, usize),
    DecodeError,
>)
    ensures
        match r {
            Ok((v, j)) => dec_payloads(bytes@, offset as int, n as nat) == Some(
                (payloads_view(v@), j as int),
            ) && payloads_wf(payloads_view(v@)),
            Err(e) => e == DecodeError::Truncated && dec_payloads(bytes@, offset as int, n as nat)
                is None,
        },
    decreases n,
{
    if n == 0 {
        let out: Vec<Payload> = Vec::new();
        assert(payloads_view(out@) =~= Seq::<Seq<u8>>::empty());
        return Ok((out, offset));
    }
    let (p, j) = match Payload::ssz_decode(bytes, offset) {
        Ok(q) => q,
        Err(e) => {
            return Err(e);
        },
    };
    match decode_payloads(bytes, j, n - 1) {
        Ok((mut rest, k)) => {
            let ghost tail = payloads_view(rest@);
            rest.insert(0, p);
            assert(payloads_view(rest@) =~= seq![p@] + tail);
            Ok((rest, k))
        },
        Err(e) => Err(e),
    }
}

/// Decode a payload sequence at cursor `offset`.
pub fn decode_payload_list(bytes: &Vec<u8>, offset: usize) -> (r: Result<
    (Vec<Payload>, usize),
    DecodeError,
>)
    ensures
        match r {
            Ok((v, j)) => dec_payload_list(bytes@, offset as int) == Some(
                (payloads_view(v@), j as int),
            ) && payloads_wf(payloads_view(v@)),
            Err(e) => e == DecodeError::Truncated && dec_payload_list(bytes@, offset as int)
                is None,
        },
{
    let (n, j) = match decode_u64(bytes, offset) {
        Ok(p) => p,
        Err(e) => {
            return Err(e);
        },
    };
    decode_payloads(bytes, j, n)
}

/// Append the digests of the payloads of `items` from position `idx` on.
fn append_payload_roots_from(buf: &mut Vec<u8>, items: &Vec<Payload>, idx: usize)
    requires
        idx <= items@.len(),
    ensures
        final(buf)@ == old(buf)@ + payload_roots_from(payloads_view(items@), idx as int),
    decreases items@.len() - idx,
{
    if idx < items.len() {
        let d = hash32(&items[idx].bytes);
        append_bytes(buf, &d);
        append_payload_roots_from(buf, items, idx + 1);
        assert(buf@ =~= old(buf)@ + payload_roots_from(payloads_view(items@), idx as int));
    }
}

/// The 32-byte commitment digest of a payload sequence.
pub fn payload_list_tree_root(items: &Vec<Payload>) -> (r: Vec<u8>)
    ensures
        r@ == payload_list_root(payloads_view(items@)),
        r@.len() == 32,
{
    let mut roots: Vec<u8> = Vec::new();
    append_payload_roots_from(&mut roots, items, 0);
    let combined = hash32(&roots);
    let mut mixed = combined;
    append_u64_leaf(&mut mixed, items.len() as u64);
    hash32(&mixed)
}

/// Decoding the canonical encoding of any well-formed payload, embedded
/// at any cursor of a larger stream, reads back exactly that payload.
pub proof fn lemma_dec_payload_of_enc(b: Seq<u8>, i: int, p: Seq<u8>)
    requires
        p.len() <= u64::MAX,
        0 <= i,
        i + payload_ssz(p).len() <= b.len(),
        b.subrange(i, i + payload_ssz(p).len()) == payload_ssz(p),
    ensures
        dec_payload(b, i) == Some((p, i + payload_ssz(p).len())),
{
    vstd::bytes::lemma_auto_spec_u64_to_from_le_bytes();
    let e = spec_u64_to_le_bytes(p.len() as u64);
    lemma_subrange_split(b, i, e, p);
    lemma_dec_u64_of_enc(b, i, p.len() as u64);
    assert(b.subrange(i + 8, i + 8 + p.len()) == p);
}

/// Decoding the concatenated encodings of the payloads from position
/// `idx` on reads back exactly those payloads.
pub proof fn lemma_dec_payloads_of_enc(b: Seq<u8>, i: int, ps: Seq<Seq<u8>>, idx: int)
    requires
        payloads_wf(ps),
        0 <= idx <= ps.len(),
        0 <= i,
        i + payloads_ssz_from(ps, idx).len() <= b.len(),
        b.subrange(i, i + payloads_ssz_from(ps, idx).len()) == payloads_ssz_from(ps, idx),
    ensures
        dec_payloads(b, i, (ps.len() - idx) as nat) == Some(
            (ps.skip(idx), i + payloads_ssz_from(ps, idx).len()),
        ),
    decreases ps.len() - idx,
{
    if idx == ps.len() {
        assert(ps.skip(idx) =~= Seq::<Seq<u8>>::empty());
    } else {
        let head = payload_ssz(ps[idx]);
        let tail = payloads_ssz_from(ps, idx + 1);
        assert(payloads_ssz_from(ps, idx) == head + tail);
        lemma_subrange_split(b, i, head, tail);
        lemma_dec_payload_of_enc(b, i, ps[idx]);
        lemma_dec_payloads_of_enc(b, i + head.len(), ps, idx + 1);
        assert(ps.skip(idx) =~= seq![ps[idx]] + ps.skip(idx + 1));
    }
}

/// Decoding the canonical encoding of any well-formed payload sequence,
/// embedded at any cursor of a larger stream, reads back exactly that
/// sequence.
pub proof fn lemma_dec_payload_list_of_enc(b: Seq<u8>, i: int, ps: Seq<Seq<u8>>)
    requires
        payloads_wf(ps),
        ps.len() <= u64::MAX,
        0 <= i,
        i + payload_list_ssz(ps).len() <= b.len(),
        b.subrange(i, i + payload_list_ssz(ps).len()) == payload_list_ssz(ps),
    ensures
        dec_payload_list(b, i) == Some((ps, i + payload_list_ssz(ps).len())),
{
    vstd::bytes::lemma_auto_spec_u64_to_from_le_bytes();
    let e = spec_u64_to_le_bytes(ps.len() as u64);
    let body = payloads_ssz_from(ps, 0);
    lemma_subrange_split(b, i, e, body);
    lemma_dec_u64_of_enc(b, i, ps.len() as u64);
    lemma_dec_payloads_of_enc(b, i + 8, ps, 0);
    assert(ps.skip(0) =~= ps);
}

} // verus!
