//! Little-endian encoding of 64-bit unsigned integers.

use vstd::prelude::*;

verus! {

/// Number of bytes in an encoded `u64`.
pub const U64_LEN: usize = 8;

/// The value of the first eight bytes of `b`, least significant byte first.
pub open spec fn le_u64(b: Seq<u8>) -> u64
    recommends
        b.len() >= 8,
{
    (b[0] as u64)
        | (b[1] as u64) << 8u64
        | (b[2] as u64) << 16u64
        | (b[3] as u64) << 24u64
        | (b[4] as u64) << 32u64
        | (b[5] as u64) << 40u64
        | (b[6] as u64) << 48u64
        | (b[7] as u64) << 56u64
}

/// The eight bytes of `x`, least significant byte first.
pub open spec fn le_bytes(x: u64) -> Seq<u8> {
    seq![
        (x & 0xffu64) as u8,
        ((x >> 8u64) & 0xffu64) as u8,
        ((x >> 16u64) & 0xffu64) as u8,
        ((x >> 24u64) & 0xffu64) as u8,
        ((x >> 32u64) & 0xffu64) as u8,
        ((x >> 40u64) & 0xffu64) as u8,
        ((x >> 48u64) & 0xffu64) as u8,
        ((x >> 56u64) & 0xffu64) as u8,
    ]
}

/// Reading back the bytes of `x` gives `x`.
pub proof fn lemma_le_u64_of_le_bytes(x: u64)
    ensures
        le_bytes(x).len() == 8,
        le_u64(le_bytes(x)) == x,
{
    let b = le_bytes(x);
    assert(x & 0xff < 256 && (x >> 8) & 0xff < 256 && (x >> 16) & 0xff < 256
        && (x >> 24) & 0xff < 256 && (x >> 32) & 0xff < 256 && (x >> 40) & 0xff < 256
        && (x >> 48) & 0xff < 256 && (x >> 56) & 0xff < 256) by (bit_vector);
    assert(x == ((x & 0xff) | ((x >> 8) & 0xff) << 8 | ((x >> 16) & 0xff) << 16 | ((x >> 24)
        & 0xff) << 24 | ((x >> 32) & 0xff) << 32 | ((x >> 40) & 0xff) << 40 | ((x >> 48) & 0xff)
        << 48 | ((x >> 56) & 0xff) << 56)) by (bit_vector);
}

/// Reads the first eight bytes of `b` as a little-endian `u64`.
pub fn u64_from_le(b: &[u8]) -> (r: u64)
    requires
        b@.len() >= 8,
    ensures
        r == le_u64(b@),
{
    (b[0] as u64)
        | (b[1] as u64) << 8u64
        | (b[2] as u64) << 16u64
        | (b[3] as u64) << 24u64
        | (b[4] as u64) << 32u64
        | (b[5] as u64) << 40u64
        | (b[6] as u64) << 48u64
        | (b[7] as u64) << 56u64
}

/// Appends the eight little-endian bytes of `x` to `buf`.
pub fn push_u64_le(buf: &mut Vec<u8>, x: u64)
    ensures
        final(buf)@ == old(buf)@ + le_bytes(x),
{
    buf.push((x & 0xff) as u8);
    buf.push(((x >> 8u64) & 0xff) as u8);
    buf.push(((x >> 16u64) & 0xff) as u8);
    buf.push(((x >> 24u64) & 0xff) as u8);
    buf.push(((x >> 32u64) & 0xff) as u8);
    buf.push(((x >> 40u64) & 0xff) as u8);
    buf.push(((x >> 48u64) & 0xff) as u8);
    buf.push(((x >> 56u64) & 0xff) as u8);
    assert(buf@ =~= old(buf)@ + le_bytes(x));
}

} // verus!
