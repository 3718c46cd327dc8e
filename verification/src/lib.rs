//! SHA-1 message digest.
//!
//! The library computes the 20-byte SHA-1 digest of an arbitrary byte
//! sequence. The whole algorithm — padding, block decomposition, message
//! schedule expansion and the 80-round compression function — is written
//! as executable code whose result is proved equal to a mathematical
//! model of SHA-1 stated over `Seq<u8>`. SHA-1 is computed as specified,
//! including its known cryptographic weaknesses; no collision resistance
//! is claimed.

use vstd::prelude::*;

pub mod compress;
pub mod padding;
pub mod schedule;
pub mod words;

use crate::compress::{spec_compress, compress_block, H0_INIT, H1_INIT, H2_INIT, H3_INIT, H4_INIT};
use crate::padding::{spec_pad, pad};
use crate::words::spec_be32;

verus! {

/// The accumulator after folding the first `n` 64-byte blocks of the
/// padded message, in message order, starting from the five fixed
/// initial words.
pub open spec fn spec_accumulate(padded: Seq<u8>, n: int) -> (u32, u32, u32, u32, u32)
    recommends
        64 * n <= padded.len(),
    decreases n,
{
    if n <= 0 {
        (H0_INIT, H1_INIT, H2_INIT, H3_INIT, H4_INIT)
    } else {
        spec_compress(spec_accumulate(padded, n - 1), padded.subrange(64 * (n - 1), 64 * n))
    }
}

/// The 20-byte SHA-1 digest of a message: the accumulator left by the
/// last block of the padded message, serialized as five big-endian
/// 32-bit words.
pub open spec fn spec_sha1(msg: Seq<u8>) -> Seq<u8>
    recommends
        msg.len() * 8 <= u64::MAX,
{
    let padded = spec_pad(msg);
    let h = spec_accumulate(padded, padded.len() as int / 64);
    spec_be32(h.0) + spec_be32(h.1) + spec_be32(h.2) + spec_be32(h.3) + spec_be32(h.4)
}

/// The digest of any message is exactly 20 bytes.
pub proof fn lemma_digest_len(msg: Seq<u8>)
    ensures
        spec_sha1(msg).len() == 20,
{
}

/// Determinism: the digest is a function of the message bytes alone, so
/// equal messages — in particular, repeated hashes of one message — have
/// equal digests.
pub proof fn lemma_sha1_deterministic(m1: Seq<u8>, m2: Seq<u8>)
    requires
        m1 == m2,
    ensures
        spec_sha1(m1) == spec_sha1(m2),
{
}

/// Computes the SHA-1 digest of `input`.
///
/// The bounds on the input length are the machine limits the algorithm
/// itself states: the padded message must be addressable, and the
/// original length in bits must fit the 64-bit length field.
pub fn sha1(input: &[u8]) -> (digest: [u8; 20])
    requires
        input@.len() + 72 <= usize::MAX,
        input@.len() * 8 <= u64::MAX,
    ensures
        digest@ == spec_sha1(input@),
        digest@.len() == 20,
{
    let padded = pad(input);
    let plen = padded.len();
    let n = plen / 64;
    proof {
        vstd::arithmetic::div_mod::lemma_fundamental_div_mod(plen as int, 64);
        assert(64 * (n as int) == padded@.len());
    }
    let mut h: (u32, u32, u32, u32, u32) = (H0_INIT, H1_INIT, H2_INIT, H3_INIT, H4_INIT);
    let mut bi: usize = 0;
    while bi < n
        invariant
            bi <= n,
            padded@.len() == 64 * n,
            padded@.len() <= usize::MAX,
            h == spec_accumulate(padded@, bi as int),
        decreases n - bi,
    {
        proof {
            vstd::arithmetic::mul::lemma_mul_inequality(bi as int + 1, n as int, 64);
        }
        h = compress_block(h, &padded, bi * 64);
        bi = bi + 1;
    }
    proof {
        assert(n as int == spec_pad(input@).len() as int / 64);
    }
    let digest: [u8; 20] = [
        (h.0 >> 24) as u8,
        (h.0 >> 16) as u8,
        (h.0 >> 8) as u8,
        h.0 as u8,
        (h.1 >> 24) as u8,
        (h.1 >> 16) as u8,
        (h.1 >> 8) as u8,
        h.1 as u8,
        (h.2 >> 24) as u8,
        (h.2 >> 16) as u8,
        (h.2 >> 8) as u8,
        h.2 as u8,
        (h.3 >> 24) as u8,
        (h.3 >> 16) as u8,
        (h.3 >> 8) as u8,
        h.3 as u8,
        (h.4 >> 24) as u8,
        (h.4 >> 16) as u8,
        (h.4 >> 8) as u8,
        h.4 as u8,
    ];
    proof {
        assert(digest@ =~= spec_sha1(input@));
    }
    digest
}

} // verus!
