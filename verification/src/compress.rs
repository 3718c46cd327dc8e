//! Compression: the 80-round bit-mixing procedure that folds one block's
//! schedule into the running five-word accumulator.

use vstd::prelude::*;
use crate::words::{spec_rotl, spec_add32, rotl, add32};
use crate::schedule::{spec_schedule, expand_schedule};

verus! {

/// Initial accumulator word h0.
pub const H0_INIT: u32 = 0x67452301;

/// Initial accumulator word h1.
pub const H1_INIT: u32 = 0xEFCDAB89;

/// Initial accumulator word h2.
pub const H2_INIT: u32 = 0x98BADCFE;

/// Initial accumulator word h3.
pub const H3_INIT: u32 = 0x10325476;

/// Initial accumulator word h4.
pub const H4_INIT: u32 = 0xC3D2E1F0;

/// Round constant for rounds 0–19.
pub const K0: u32 = 0x5A827999;

/// Round constant for rounds 20–39.
pub const K20: u32 = 0x6ED9EBA1;

/// Round constant for rounds 40–59.
pub const K40: u32 = 0x8F1BBCDC;

/// Round constant for rounds 60–79.
pub const K60: u32 = 0xCA62C1D6;

/// Nonlinear mixing function of round `t`: choice for rounds 0–19,
/// parity for rounds 20–39 and 60–79, majority for rounds 40–59.
/// Total over the whole round domain [0, 80).
pub open spec fn spec_f(t: int, b: u32, c: u32, d: u32) -> u32
    recommends
        0 <= t < 80,
{
    if t < 20 {
        (b & c) | (!b & d)
    } else if t < 40 {
        b ^ c ^ d
    } else if t < 60 {
        (b & c) | (b & d) | (c & d)
    } else {
        b ^ c ^ d
    }
}

/// Round constant of round `t`. Total over the whole round domain [0, 80).
pub open spec fn spec_k(t: int) -> u32
    recommends
        0 <= t < 80,
{
    if t < 20 {
        K0
    } else if t < 40 {
        K20
    } else if t < 60 {
        K40
    } else {
        K60
    }
}

/// The working state (a, b, c, d, e) after the first `t` rounds over one
/// block, starting from accumulator `h`.
pub open spec fn spec_rounds(block: Seq<u8>, h: (u32, u32, u32, u32, u32), t: int) -> (
    u32,
    u32,
    u32,
    u32,
    u32,
)
    recommends
        0 <= t <= 80,
        block.len() == 64,
    decreases t,
{
    if t <= 0 {
        h
    } else {
        let s = spec_rounds(block, h, t - 1);
        let temp = spec_add32(
            spec_add32(
                spec_add32(spec_add32(spec_rotl(s.0, 5), spec_f(t - 1, s.1, s.2, s.3)), s.4),
                spec_schedule(block, t - 1),
            ),
            spec_k(t - 1),
        );
        (temp, s.0, spec_rotl(s.1, 30), s.2, s.3)
    }
}

/// The accumulator after folding one block into `h`: the working state
/// after 80 rounds, added word-wise modulo 2^32 to `h`.
pub open spec fn spec_compress(h: (u32, u32, u32, u32, u32), block: Seq<u8>) -> (
    u32,
    u32,
    u32,
    u32,
    u32,
)
    recommends
        block.len() == 64,
{
    let s = spec_rounds(block, h, 80);
    (
        spec_add32(h.0, s.0),
        spec_add32(h.1, s.1),
        spec_add32(h.2, s.2),
        spec_add32(h.3, s.3),
        spec_add32(h.4, s.4),
    )
}

/// Executable round function; total over the round domain, matching
/// `spec_f` exactly.
pub fn round_f(t: usize, b: u32, c: u32, d: u32) -> (r: u32)
    requires
        t < 80,
    ensures
        r == spec_f(t as int, b, c, d),
{
    if t < 20 {
        (b & c) | (!b & d)
    } else if t < 40 {
        b ^ c ^ d
    } else if t < 60 {
        (b & c) | (b & d) | (c & d)
    } else {
        b ^ c ^ d
    }
}

/// Executable round constant; total over the round domain, matching
/// `spec_k` exactly.
pub fn round_k(t: usize) -> (r: u32)
    requires
        t < 80,
    ensures
        r == spec_k(t as int),
{
    if t < 20 {
        K0
    } else if t < 40 {
        K20
    } else if t < 60 {
        K40
    } else {
        K60
    }
}

/// Folds the 64-byte block of `padded` starting at `off` into the
/// accumulator `h`.
pub fn compress_block(h: (u32, u32, u32, u32, u32), padded: &Vec<u8>, off: usize) -> (r: (
    u32,
    u32,
    u32,
    u32,
    u32,
))
    requires
        off + 64 <= padded@.len(),
    ensures
        r == spec_compress(h, padded@.subrange(off as int, off as int + 64)),
{
    let ghost block = padded@.subrange(off as int, off as int + 64);
    let w = expand_schedule(padded, off);
    let mut a = h.0;
    let mut b = h.1;
    let mut c = h.2;
    let mut d = h.3;
    let mut e = h.4;
    let mut t: usize = 0;
    while t < 80
        invariant
            t <= 80,
            w@.len() == 80,
            forall|i: int| 0 <= i < 80 ==> w@[i] == spec_schedule(block, i),
            (a, b, c, d, e) == spec_rounds(block, h, t as int),
        decreases 80 - t,
    {
        let temp = add32(add32(add32(add32(rotl(a, 5), round_f(t, b, c, d)), e), w[t]), round_k(t));
        e = d;
        d = c;
        c = rotl(b, 30);
        b = a;
        a = temp;
        t = t + 1;
    }
    (add32(h.0, a), add32(h.1, b), add32(h.2, c), add32(h.3, d), add32(h.4, e))
}

} // verus!
