//! CRC-32C (Castagnoli), the checksum a record batch carries over its
//! bytes from the attributes field onward.
//!
//! The spec is the reflected bit-serial definition with polynomial
//! 0x82F63B78; the executable computation mirrors it bit for bit.

use vstd::prelude::*;

verus! {

/// One reflected shift step.
pub open spec fn crc_step(c: u32) -> u32 {
    if c & 1 == 1 {
        (c >> 1) ^ 0x82F63B78
    } else {
        c >> 1
    }
}

/// `n` shift steps.
pub open spec fn crc_steps(c: u32, n: nat) -> u32
    decreases n,
{
    if n == 0 {
        c
    } else {
        crc_steps(crc_step(c), (n - 1) as nat)
    }
}

/// Folds one byte into the running state.
pub open spec fn crc_update(c: u32, b: u8) -> u32 {
    crc_steps(c ^ (b as u32), 8)
}

/// Folds a byte sequence into the running state, left to right.
pub open spec fn crc_fold(c: u32, s: Seq<u8>) -> u32
    decreases s.len(),
{
    if s.len() == 0 {
        c
    } else {
        crc_fold(crc_update(c, s[0]), s.skip(1))
    }
}

/// The checksum: fold from all-ones, then invert.
pub open spec fn crc32c(s: Seq<u8>) -> u32 {
    crc_fold(0xFFFFFFFFu32, s) ^ 0xFFFFFFFFu32
}

/// Computes CRC-32C; the result is exactly the spec checksum.
pub fn crc32c_compute(data: &Vec<u8>) -> (r: u32)
    ensures
        r == crc32c(data@),
{
    let mut state: u32 = 0xFFFFFFFF;
    let mut i: usize = 0;
    proof {
        assert(data@.skip(0) =~= data@);
    }
    while i < data.len()
        invariant
            i <= data@.len(),
            crc_fold(0xFFFFFFFFu32, data@) == crc_fold(state, data@.skip(i as int)),
        decreases data@.len() - i,
    {
        let b = data[i];
        let mut c: u32 = state ^ (b as u32);
        let mut k: usize = 0;
        while k < 8
            invariant
                k <= 8,
                c == crc_steps(state ^ (b as u32), k as nat),
            decreases 8 - k,
        {
            proof {
                assert(crc_steps(state ^ (b as u32), (k + 1) as nat) == crc_steps(
                    crc_step(state ^ (b as u32)),
                    k as nat,
                ));
                lemma_crc_steps_shift(state ^ (b as u32), k as nat);
            }
            if c & 1 == 1 {
                c = (c >> 1) ^ 0x82F63B78;
            } else {
                c = c >> 1;
            }
            k = k + 1;
        }
        proof {
            let rest = data@.skip(i as int);
            assert(rest[0] == data@[i as int]);
            assert(rest.skip(1) =~= data@.skip(i + 1));
            assert(crc_fold(state, rest) == crc_fold(crc_update(state, b), data@.skip(i + 1)));
        }
        state = c;
        i = i + 1;
    }
    proof {
        assert(data@.skip(data@.len() as int) =~= Seq::<u8>::empty());
    }
    state ^ 0xFFFFFFFF
}

/// Stepping first and then iterating equals iterating and then stepping.
proof fn lemma_crc_steps_shift(c: u32, n: nat)
    ensures
        crc_steps(crc_step(c), n) == crc_step(crc_steps(c, n)),
    decreases n,
{
    if n > 0 {
        lemma_crc_steps_shift(crc_step(c), (n - 1) as nat);
    }
}

} // verus!
