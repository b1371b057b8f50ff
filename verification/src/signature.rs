//! Fixed-size signature values.

use vstd::prelude::*;

verus! {

use crate::codec::{DecodeError, append_bytes, read_bytes, zero_bytes, zero_vec};

/// The canonical width of a signature, in bytes.
pub const SIGNATURE_WIDTH: usize = 96;

/// A signature value, consumed by this layer as an opaque fixed-width
/// byte string with an "empty" sentinel constructible without key
/// material. Verifying signatures is out of this layer's scope.
#[derive(Debug, Clone, PartialEq)]
pub struct Signature {
    pub bytes: Vec<u8>,
}

impl View for Signature {
    type V = Seq<u8>;

    open spec fn view(&self) -> Seq<u8> {
        self.bytes@
    }
}

/// The signature and next cursor read at cursor `i`: exactly its
/// fixed-width raw bytes.
pub open spec fn dec_signature(b: Seq<u8>, i: int) -> Option<(Seq<u8>, int)> {
    if 0 <= i && i + SIGNATURE_WIDTH <= b.len() {
        Some((b.subrange(i, i + SIGNATURE_WIDTH), i + SIGNATURE_WIDTH))
    } else {
        None
    }
}

impl Signature {
    /// Exactly the canonical signature width.
    pub open spec fn wf(&self) -> bool {
        self@.len() == SIGNATURE_WIDTH
    }

    /// Wrap a byte string of the canonical width as a signature value.
    pub fn new(bytes: Vec<u8>) -> (r: Signature)
        requires
            bytes@.len() == SIGNATURE_WIDTH,
        ensures
            r@ == bytes@,
            r.wf(),
    {
        Signature { bytes }
    }

    /// The empty-signature sentinel: the unique all-zero signature value,
    /// built without key material.
    pub fn empty() -> (r: Signature)
        ensures
            r@ == zero_bytes(SIGNATURE_WIDTH as nat),
            r.wf(),
    {
        Signature { bytes: zero_vec(SIGNATURE_WIDTH) }
    }

    /// Build a signature from a byte string of collaborator origin,
    /// refusing any width but the canonical one.
    pub fn from_slice(bytes: &Vec<u8>) -> (r: Result<Signature, DecodeError>)
        ensures
            match r {
                Ok(s) => bytes@.len() == SIGNATURE_WIDTH && s@ == bytes@ && s.wf(),
                Err(e) => e == DecodeError::InvalidFixedWidth && bytes@.len() != SIGNATURE_WIDTH,
            },
    {
        if bytes.len() != SIGNATURE_WIDTH {
            return Err(DecodeError::InvalidFixedWidth);
        }
        match read_bytes(bytes, 0, SIGNATURE_WIDTH) {
            Ok((v, _)) => {
                assert(v@ =~= bytes@);
                Ok(Signature { bytes: v })
            },
            Err(_) => Err(DecodeError::InvalidFixedWidth),
        }
    }

    /// A fresh signature value with the same bytes.
    pub fn duplicate(&self) -> (r: Signature)
        ensures
            r@ == self@,
    {
        let mut bytes: Vec<u8> = Vec::new();
        append_bytes(&mut bytes, &self.bytes);
        assert(bytes@ =~= self@);
        Signature { bytes }
    }

    /// Append the canonical encoding of `self` to `buf`: its raw bytes.
    pub fn ssz_append(&self, buf: &mut Vec<u8>)
        requires
            self.wf(),
        ensures
            final(buf)@ == old(buf)@ + self@,
    {
        append_bytes(buf, &self.bytes);
    }

    /// Decode a signature at cursor `offset`.
    pub fn ssz_decode(bytes: &Vec<u8>, offset: usize) -> (r: Result<
        (Signature, usize),
        DecodeError,
    >)
        ensures
            match r {
                Ok((s, j)) => dec_signature(bytes@, offset as int) == Some((s@, j as int))
                    && s.wf(),
                Err(e) => e == DecodeError::Truncated && dec_signature(bytes@, offset as int)
                    is None,
            },
    {
        match read_bytes(bytes, offset, SIGNATURE_WIDTH) {
            Ok((v, j)) => Ok((Signature { bytes: v }, j)),
            Err(e) => Err(e),
        }
    }
}

} // verus!
