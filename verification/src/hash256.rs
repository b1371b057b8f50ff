//! 32-byte digest values.

use vstd::prelude::*;

verus! {

use crate::codec::{DecodeError, append_bytes, read_bytes, zero_bytes, zero_vec};

/// A 32-byte digest: the commitment of some structure, or a configured
/// sentinel. Opaque to this layer beyond its width.
#[derive(Debug, Clone, PartialEq)]
pub struct Hash256 {
    pub bytes: Vec<u8>,
}

impl View for Hash256 {
    type V = Seq<u8>;

    open spec fn view(&self) -> Seq<u8> {
        self.bytes@
    }
}

/// The digest and next cursor read at cursor `i`: exactly 32 raw bytes.
pub open spec fn dec_hash256(b: Seq<u8>, i: int) -> Option<(Seq<u8>, int)> {
    if 0 <= i && i + 32 <= b.len() {
        Some((b.subrange(i, i + 32), i + 32))
    } else {
        None
    }
}

impl Hash256 {
    /// Exactly 32 bytes wide.
    pub open spec fn wf(&self) -> bool {
        self@.len() == 32
    }

    /// Wrap a 32-byte string as a digest value.
    pub fn new(bytes: Vec<u8>) -> (r: Hash256)
        requires
            bytes@.len() == 32,
        ensures
            r@ == bytes@,
            r.wf(),
    {
        Hash256 { bytes }
    }

    /// The all-zero digest: the sentinel standing in for a digest that
    /// does not exist, such as the parent of the genesis block.
    pub fn zero() -> (r: Hash256)
        ensures
            r@ == zero_bytes(32),
            r.wf(),
    {
        Hash256 { bytes: zero_vec(32) }
    }

    /// Build a digest from a byte string of collaborator origin, refusing
    /// any width but 32.
    pub fn from_slice(bytes: &Vec<u8>) -> (r: Result<Hash256, DecodeError>)
        ensures
            match r {
                Ok(h) => bytes@.len() == 32 && h@ == bytes@ && h.wf(),
                Err(e) => e == DecodeError::InvalidFixedWidth && bytes@.len() != 32,
            },
    {
        if bytes.len() != 32 {
            return Err(DecodeError::InvalidFixedWidth);
        }
        match read_bytes(bytes, 0, 32) {
            Ok((v, _)) => {
                assert(v@ =~= bytes@);
                Ok(Hash256 { bytes: v })
            },
            Err(_) => Err(DecodeError::InvalidFixedWidth),
        }
    }

    /// A fresh digest value with the same bytes.
    pub fn duplicate(&self) -> (r: Hash256)
        ensures
            r@ == self@,
    {
        let mut bytes: Vec<u8> = Vec::new();
        append_bytes(&mut bytes, &self.bytes);
        assert(bytes@ =~= self@);
        Hash256 { bytes }
    }

    /// Append the canonical encoding of `self` to `buf`: its 32 raw bytes.
    pub fn ssz_append(&self, buf: &mut Vec<u8>)
        requires
            self.wf(),
        ensures
            final(buf)@ == old(buf)@ + self@,
    {
        append_bytes(buf, &self.bytes);
    }

    /// Decode a digest at cursor `offset`.
    pub fn ssz_decode(bytes: &Vec<u8>, offset: usize) -> (r: Result<(Hash256, usize), DecodeError>)
        ensures
            match r {
                Ok((h, j)) => dec_hash256(bytes@, offset as int) == Some((h@, j as int)) && h.wf(),
                Err(e) => e == DecodeError::Truncated && dec_hash256(bytes@, offset as int) is None,
            },
    {
        match read_bytes(bytes, offset, 32) {
            Ok((v, j)) => Ok((Hash256 { bytes: v }, j)),
            Err(e) => Err(e),
        }
    }
}

} // verus!
