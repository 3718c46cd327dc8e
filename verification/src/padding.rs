//! Padding: extends a message to a multiple of the 64-byte block size,
//! embedding the original bit-length.

use vstd::prelude::*;
use crate::words::spec_be64;

verus! {

/// Length of the padded message: the smallest multiple of 64 that is at
/// least nine bytes longer than the message (room for the 0x80 marker
/// byte and the eight-byte length field).
pub open spec fn spec_padded_len(l: nat) -> nat {
    ((l + 72) / 64) * 64
}

/// The padded message: the message itself, one 0x80 marker byte, zero
/// bytes up to eight bytes short of a multiple of 64, and the original
/// length in bits as an eight-byte big-endian field.
pub open spec fn spec_pad(msg: Seq<u8>) -> Seq<u8>
    recommends
        msg.len() * 8 <= u64::MAX,
{
    msg + seq![0x80u8] + Seq::new((spec_padded_len(msg.len()) - msg.len() - 9) as nat, |k: int| 0u8)
        + spec_be64((msg.len() * 8) as u64)
}

/// The padded length is a positive multiple of 64 and leaves at least
/// nine bytes after the message, but never a whole spare block.
pub proof fn lemma_padded_len(l: nat)
    ensures
        spec_padded_len(l) % 64 == 0,
        l + 9 <= spec_padded_len(l),
        spec_padded_len(l) <= l + 72,
        spec_padded_len(l) >= 64,
{
    let q = ((l + 72) / 64) as int;
    vstd::arithmetic::div_mod::lemma_fundamental_div_mod((l + 72) as int, 64);
    vstd::arithmetic::div_mod::lemma_mod_multiples_basic(q, 64);
}

pub fn pad(input: &[u8]) -> (out: Vec<u8>)
    requires
        input@.len() + 72 <= usize::MAX,
        input@.len() * 8 <= u64::MAX,
    ensures
        out@ == spec_pad(input@),
        out@.len() == spec_padded_len(input@.len()),
        out@.len() % 64 == 0,
        out@.len() >= 64,
{
    let l = input.len();
    proof {
        lemma_padded_len(l as nat);
    }
    let total: usize = ((l + 72) / 64) * 64;
    let zeros: usize = total - l - 9;
    let mut out: Vec<u8> = Vec::with_capacity(total);
    let mut i: usize = 0;
    proof {
        assert(out@ =~= input@.subrange(0, 0));
    }
    while i < l
        invariant
            i <= l,
            l == input@.len(),
            out@ == input@.subrange(0, i as int),
        decreases l - i,
    {
        out.push(input[i]);
        proof {
            assert(out@ =~= input@.subrange(0, i + 1));
        }
        i = i + 1;
    }
    out.push(0x80);
    proof {
        assert(input@.subrange(0, l as int) =~= input@);
        assert(out@ =~= input@ + seq![0x80u8] + Seq::new(0, |k: int| 0u8));
    }
    let mut j: usize = 0;
    while j < zeros
        invariant
            j <= zeros,
            l == input@.len(),
            out@ == input@ + seq![0x80u8] + Seq::new(j as nat, |k: int| 0u8),
        decreases zeros - j,
    {
        out.push(0);
        proof {
            assert(out@ =~= input@ + seq![0x80u8] + Seq::new((j + 1) as nat, |k: int| 0u8));
        }
        j = j + 1;
    }
    let bits: u64 = (l as u64) * 8;
    out.push((bits >> 56) as u8);
    out.push((bits >> 48) as u8);
    out.push((bits >> 40) as u8);
    out.push((bits >> 32) as u8);
    out.push((bits >> 24) as u8);
    out.push((bits >> 16) as u8);
    out.push((bits >> 8) as u8);
    out.push(bits as u8);
    proof {
        assert(out@ =~= spec_pad(input@));
    }
    out
}

} // verus!
