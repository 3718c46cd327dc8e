//! 32-bit word primitives of SHA-1: left rotation, modular addition, and
//! big-endian conversions between words and bytes.

use vstd::prelude::*;

verus! {

/// Cyclic left shift of a 32-bit word by `n` positions: bits shifted out
/// the top re-enter at the bottom.
pub open spec fn spec_rotl(x: u32, n: u32) -> u32
    recommends
        0 < n < 32,
{
    (x << n) | (x >> ((32 - n) as u32))
}

/// Addition modulo 2^32: wraps silently on overflow.
pub open spec fn spec_add32(a: u32, b: u32) -> u32 {
    ((a + b) % 0x1_0000_0000) as u32
}

/// The 32-bit big-endian word held by the four bytes of `b` starting at `off`.
pub open spec fn spec_word_be(b: Seq<u8>, off: int) -> u32
    recommends
        0 <= off,
        off + 4 <= b.len(),
{
    ((b[off] as u32) << 24u32) | ((b[off + 1] as u32) << 16u32) | ((b[off + 2] as u32) << 8u32) | (
    b[off + 3] as u32)
}

/// The four bytes of the big-endian serialization of a 32-bit word.
pub open spec fn spec_be32(x: u32) -> Seq<u8> {
    seq![(x >> 24u32) as u8, (x >> 16u32) as u8, (x >> 8u32) as u8, x as u8]
}

/// The eight bytes of the big-endian serialization of a 64-bit word.
pub open spec fn spec_be64(x: u64) -> Seq<u8> {
    seq![
        (x >> 56u64) as u8,
        (x >> 48u64) as u8,
        (x >> 40u64) as u8,
        (x >> 32u64) as u8,
        (x >> 24u64) as u8,
        (x >> 16u64) as u8,
        (x >> 8u64) as u8,
        x as u8,
    ]
}

pub fn rotl(x: u32, n: u32) -> (r: u32)
    requires
        0 < n < 32,
    ensures
        r == spec_rotl(x, n),
{
    (x << n) | (x >> (32 - n))
}

pub fn add32(a: u32, b: u32) -> (r: u32)
    ensures
        r == spec_add32(a, b),
{
    let s: u64 = (a as u64) + (b as u64);
    (s % 0x1_0000_0000) as u32
}

pub fn word_be(bytes: &Vec<u8>, off: usize) -> (r: u32)
    requires
        off + 4 <= bytes.len(),
    ensures
        r == spec_word_be(bytes@, off as int),
{
    ((bytes[off] as u32) << 24u32) | ((bytes[off + 1] as u32) << 16u32) | ((bytes[off + 2]
        as u32) << 8u32) | (bytes[off + 3] as u32)
}

} // verus!
