//! Message schedule: the 80-word sequence derived from one 64-byte block,
//! consumed one word per compression round.

use vstd::prelude::*;
use crate::words::{spec_rotl, spec_word_be, rotl, word_be};

verus! {

/// Word `i` of the schedule of one 64-byte block: words 0–15 are the
/// block's bytes read as big-endian 32-bit words, and each later word is
/// the XOR of the words 3, 8, 14 and 16 places back, rotated left once.
pub open spec fn spec_schedule(block: Seq<u8>, i: int) -> u32
    recommends
        0 <= i < 80,
        block.len() == 64,
    decreases i,
{
    if i < 16 {
        spec_word_be(block, 4 * i)
    } else {
        spec_rotl(
            spec_schedule(block, i - 3) ^ spec_schedule(block, i - 8) ^ spec_schedule(block, i - 14)
                ^ spec_schedule(block, i - 16),
            1,
        )
    }
}

/// Expands the 64-byte block of `padded` starting at `off` into its
/// 80-word schedule.
pub fn expand_schedule(padded: &Vec<u8>, off: usize) -> (w: Vec<u32>)
    requires
        off + 64 <= padded.len(),
    ensures
        w@.len() == 80,
        forall|i: int|
            0 <= i < 80 ==> w@[i] == spec_schedule(
                padded@.subrange(off as int, off as int + 64),
                i,
            ),
{
    let ghost block = padded@.subrange(off as int, off as int + 64);
    let mut w: Vec<u32> = Vec::with_capacity(80);
    let mut i: usize = 0;
    while i < 16
        invariant
            i <= 16,
            off + 64 <= padded.len(),
            block == padded@.subrange(off as int, off as int + 64),
            w@.len() == i,
            forall|t: int| 0 <= t < i ==> w@[t] == spec_schedule(block, t),
        decreases 16 - i,
    {
        let word = word_be(padded, off + 4 * i);
        proof {
            assert(block[4 * (i as int)] == padded@[off as int + 4 * (i as int)]);
            assert(block[4 * (i as int) + 1] == padded@[off as int + 4 * (i as int) + 1]);
            assert(block[4 * (i as int) + 2] == padded@[off as int + 4 * (i as int) + 2]);
            assert(block[4 * (i as int) + 3] == padded@[off as int + 4 * (i as int) + 3]);
            assert(word == spec_schedule(block, i as int));
        }
        w.push(word);
        i = i + 1;
    }
    while i < 80
        invariant
            16 <= i <= 80,
            block == padded@.subrange(off as int, off as int + 64),
            w@.len() == i,
            forall|t: int| 0 <= t < i ==> w@[t] == spec_schedule(block, t),
        decreases 80 - i,
    {
        let x = w[i - 3] ^ w[i - 8] ^ w[i - 14] ^ w[i - 16];
        let word = rotl(x, 1);
        proof {
            assert(w@[i - 3] == spec_schedule(block, i - 3));
            assert(w@[i - 8] == spec_schedule(block, i - 8));
            assert(w@[i - 14] == spec_schedule(block, i - 14));
            assert(w@[i - 16] == spec_schedule(block, i - 16));
            assert(word == spec_schedule(block, i as int));
        }
        w.push(word);
        i = i + 1;
    }
    w
}

} // verus!
