//! Primitives of the canonical codec.
//!
//! The wire format is a flat byte stream. Fixed-width fields occupy exactly
//! their width: an unsigned 64-bit integer is eight bytes, little-endian;
//! digests and signatures are their raw bytes. Decoding reads exactly the
//! declared width at the given cursor and fails with [`DecodeError::Truncated`]
//! when fewer bytes remain.

use vstd::prelude::*;

verus! {

use vstd::bytes::{spec_u64_to_le_bytes, spec_u64_from_le_bytes, lemma_auto_spec_u64_to_from_le_bytes};
use vstd::bytes::{u64_to_le_bytes, u64_from_le_bytes};
use vstd::slice::slice_subrange;

/// A failure of the decode direction. Decoding either yields a complete
/// value or one of these; no partially constructed value ever escapes.
#[derive(Debug, Clone, Copy, PartialEq, Eq, Structural)]
pub enum DecodeError {
    /// Fewer bytes remain than a fixed-width field or a declared
    /// element count requires.
    Truncated,
    /// A whole-input decode consumed the value but bytes were left over.
    TrailingBytes,
    /// A fixed-size field was built from a byte string of the wrong width.
    InvalidFixedWidth,
}

/// The value and next cursor read by a 64-bit little-endian decode at
/// cursor `i`, or `None` when fewer than eight bytes remain.
pub open spec fn dec_u64(b: Seq<u8>, i: int) -> Option<(u64, int)> {
    if 0 <= i && i + 8 <= b.len() {
        Some((spec_u64_from_le_bytes(b.subrange(i, i + 8)), i + 8))
    } else {
        None
    }
}

/// A run of `n` zero bytes, the shape of the configured sentinel values.
pub open spec fn zero_bytes(n: nat) -> Seq<u8> {
    Seq::new(n, |k: int| 0u8)
}

/// A fresh buffer of `n` zero bytes.
pub fn zero_vec(n: usize) -> (r: Vec<u8>)
    ensures
        r@ == zero_bytes(n as nat),
        r@.len() == n,
{
    let mut out: Vec<u8> = Vec::new();
    let mut k: usize = 0;
    while k < n
        invariant
            k <= n,
            out@ == zero_bytes(k as nat),
        decreases n - k,
    {
        out.push(0u8);
        assert(zero_bytes(k as nat) + seq![0u8] =~= zero_bytes((k + 1) as nat));
        k = k + 1;
    }
    out
}

/// Append the bytes of `src` to `buf`.
pub fn append_bytes(buf: &mut Vec<u8>, src: &Vec<u8>)
    ensures
        final(buf)@ == old(buf)@ + src@,
{
    let n = src.len();
    let mut k: usize = 0;
    while k < n
        invariant
            n == src@.len(),
            k <= n,
            buf@ == old(buf)@ + src@.subrange(0, k as int),
        decreases n - k,
    {
        buf.push(src[k]);
        assert(old(buf)@ + src@.subrange(0, k as int) + seq![src@[k as int]]
            =~= old(buf)@ + src@.subrange(0, k as int + 1));
        k = k + 1;
    }
    assert(src@.subrange(0, n as int) =~= src@);
}

/// Append the eight-byte little-endian encoding of `x` to `buf`.
pub fn append_u64(buf: &mut Vec<u8>, x: u64)
    ensures
        final(buf)@ == old(buf)@ + spec_u64_to_le_bytes(x),
{
    let bytes = u64_to_le_bytes(x);
    append_bytes(buf, &bytes);
}

/// Read a 64-bit little-endian integer at cursor `offset`.
pub fn decode_u64(bytes: &Vec<u8>, offset: usize) -> (r: Result<(u64, usize), DecodeError>)
    ensures
        match r {
            Ok((x, j)) => dec_u64(bytes@, offset as int) == Some((x, j as int)),
            Err(e) => e == DecodeError::Truncated && dec_u64(bytes@, offset as int) is None,
        },
{
    let n = bytes.len();
    if n < 8 || offset > n - 8 {
        return Err(DecodeError::Truncated);
    }
    let window = slice_subrange(bytes.as_slice(), offset, offset + 8);
    let x = u64_from_le_bytes(window);
    Ok((x, offset + 8))
}

/// Copy `width` bytes starting at cursor `offset` out of `bytes`.
pub fn read_bytes(bytes: &Vec<u8>, offset: usize, width: usize) -> (r: Result<
    (Vec<u8>, usize),
    DecodeError,
>)
    ensures
        match r {
            Ok((v, j)) => {
                &&& offset + width <= bytes@.len()
                &&& v@ == bytes@.subrange(offset as int, offset as int + width as int)
                &&& v@.len() == width
                &&& j == offset + width
            },
            Err(e) => e == DecodeError::Truncated && offset + width > bytes@.len(),
        },
{
    let n = bytes.len();
    if width > n || offset > n - width {
        return Err(DecodeError::Truncated);
    }
    let mut out: Vec<u8> = Vec::new();
    let mut k: usize = 0;
    while k < width
        invariant
            n == bytes@.len(),
            offset + width <= n,
            k <= width,
            out@ == bytes@.subrange(offset as int, offset as int + k as int),
        decreases width - k,
    {
        out.push(bytes[offset + k]);
        assert(bytes@.subrange(offset as int, offset as int + k as int)
            + seq![bytes@[offset as int + k as int]]
            =~= bytes@.subrange(offset as int, offset as int + k as int + 1));
        k = k + 1;
    }
    Ok((out, offset + width))
}

/// A decode at the start of an embedded encoding reads back exactly the
/// encoded integer and stops at its end.
pub proof fn lemma_dec_u64_of_enc(b: Seq<u8>, i: int, x: u64)
    requires
        0 <= i,
        i + 8 <= b.len(),
        b.subrange(i, i + 8) == spec_u64_to_le_bytes(x),
    ensures
        dec_u64(b, i) == Some((x, i + 8)),
{
    lemma_auto_spec_u64_to_from_le_bytes();
}

/// Splitting a window known to hold a concatenation yields the two parts.
pub proof fn lemma_subrange_split(b: Seq<u8>, i: int, s1: Seq<u8>, s2: Seq<u8>)
    requires
        0 <= i,
        i + s1.len() + s2.len() <= b.len(),
        b.subrange(i, i + s1.len() + s2.len()) == s1 + s2,
    ensures
        b.subrange(i, i + s1.len()) == s1,
        b.subrange(i + s1.len(), i + s1.len() + s2.len()) == s2,
{
    let whole = b.subrange(i, i + s1.len() + s2.len());
    assert forall|k: int| 0 <= k < s1.len() implies b[i + k] == s1[k] by {
        assert(whole[k] == (s1 + s2)[k]);
    }
    assert forall|k: int| 0 <= k < s2.len() implies b[i + s1.len() + k] == s2[k] by {
        assert(whole[s1.len() + k] == (s1 + s2)[s1.len() + k]);
    }
    assert(b.subrange(i, i + s1.len()) =~= s1);
    assert(b.subrange(i + s1.len(), i + s1.len() + s2.len()) =~= s2);
}

} // verus!
