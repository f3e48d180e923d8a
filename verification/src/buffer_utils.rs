//! Varint and raw-string reads over a `BufferReader`.

use vstd::prelude::*;
use crate::buffer_reader::{BufferReader, DecodeError};
use crate::wire::{dec_raw, dec_uvarint, dec_uvarint_nat, dec_varint};

verus! {

/// 128 to the power `n`; bounds the value of a base-128 number of `n`
/// bytes.
pub open spec fn pow128(n: nat) -> nat
    decreases n,
{
    if n == 0 {
        1
    } else {
        128 * pow128((n - 1) as nat)
    }
}

proof fn lemma_pow128_le(a: nat, b: nat)
    requires
        a <= b,
    ensures
        pow128(a) <= pow128(b),
    decreases b,
{
    if a < b {
        lemma_pow128_le(a, (b - 1) as nat);
    }
}

pub struct BufferUtils {}

impl BufferUtils {
    /// At most `fuel` base-128 groups, as an unbounded value in a `u64`.
    fn read_uvarint_rec(reader: &mut BufferReader, fuel: u8) -> (r: Result<u64, DecodeError>)
        requires
            old(reader).wf(),
            fuel <= 5,
        ensures
            final(reader).wf(),
            final(reader).buffer@ == old(reader).buffer@,
            match dec_uvarint_nat(old(reader).buffer@, old(reader).pos as int, fuel as nat) {
                Option::Some((v, j)) => r matches Result::Ok(x) && x as nat == v && v < pow128(
                    fuel as nat,
                ) && final(reader).pos == j,
                Option::None => r == Result::<u64, DecodeError>::Err(DecodeError) && final(reader).pos == old(reader).pos,
            },
        decreases fuel,
    {
        if fuel == 0 {
            return Result::Err(DecodeError);
        }
        if reader.buffer.len() - reader.pos < 1 {
            return Result::Err(DecodeError);
        }
        let pos0 = reader.pos;
        let b = reader.buffer[reader.pos];
        reader.pos = reader.pos + 1;
        if b < 128 {
            proof {
                assert(pow128(0) == 1);
                assert(pow128(1) == 128);
                lemma_pow128_le(1, fuel as nat);
            }
            Result::Ok(b as u64)
        } else {
            match Self::read_uvarint_rec(reader, fuel - 1) {
                Result::Err(e) => {
                    reader.pos = pos0;
                    Result::Err(e)
                },
                Result::Ok(x) => {
                    proof {
                        lemma_pow128_le((fuel - 1) as nat, 4);
                        assert(pow128(0) == 1);
                        assert(pow128(1) == 128);
                        assert(pow128(2) == 16384);
                        assert(pow128(3) == 2097152);
                        assert(pow128(4) == 268435456);
                        assert(pow128(fuel as nat) == 128 * pow128((fuel - 1) as nat));
                        let s = reader.buffer@;
                        let inner = dec_uvarint_nat(s, pos0 + 1, (fuel - 1) as nat);
                        assert(inner is Some);
                        let (v_rest, j) = inner->Some_0;
                        assert(x as nat == v_rest && v_rest < pow128((fuel - 1) as nat));
                        assert(s[pos0 as int] == b && b >= 128);
                        assert(dec_uvarint_nat(s, pos0 as int, fuel as nat)
                            == Option::<(nat, int)>::Some(((b - 128) as nat + 128 * v_rest, j)));
                    }
                    Result::Ok((b - 128) as u64 + 128 * x)
                },
            }
        }
    }

    /// An unsigned base-128 varint of at most five bytes, whose value must
    /// fit 32 bits.
    pub fn read_uvarint(reader: &mut BufferReader) -> (r: Result<u32, DecodeError>)
        requires
            old(reader).wf(),
        ensures
            final(reader).wf(),
            final(reader).buffer@ == old(reader).buffer@,
            match dec_uvarint(old(reader).buffer@, old(reader).pos as int) {
                Option::Some((v, j)) => r == Result::<u32, DecodeError>::Ok(v) && final(reader).pos == j,
                Option::None => r == Result::<u32, DecodeError>::Err(DecodeError) && final(reader).pos == old(reader).pos,
            },
    {
        let pos0 = reader.pos;
        match Self::read_uvarint_rec(reader, 5) {
            Result::Err(e) => Result::Err(e),
            Result::Ok(x) => {
                if x <= 0xffffffff {
                    Result::Ok(x as u32)
                } else {
                    reader.pos = pos0;
                    Result::Err(DecodeError)
                }
            },
        }
    }

    /// A zig-zag signed 32-bit varint.
    pub fn read_varint(reader: &mut BufferReader) -> (r: Result<i32, DecodeError>)
        requires
            old(reader).wf(),
        ensures
            final(reader).wf(),
            final(reader).buffer@ == old(reader).buffer@,
            match dec_varint(old(reader).buffer@, old(reader).pos as int) {
                Option::Some((v, j)) => r == Result::<i32, DecodeError>::Ok(v) && final(reader).pos == j,
                Option::None => r == Result::<i32, DecodeError>::Err(DecodeError) && final(reader).pos == old(reader).pos,
            },
    {
        match Self::read_uvarint(reader) {
            Result::Err(e) => Result::Err(e),
            Result::Ok(u) => {
                let h = u / 2;
                if u % 2 == 0 {
                    Result::Ok(h as i32)
                } else {
                    Result::Ok((-((h as i64) + 1)) as i32)
                }
            },
        }
    }

    /// `length` raw bytes; a negative length is malformed.
    pub fn read_string(length: i32, reader: &mut BufferReader) -> (r: Result<Vec<u8>, DecodeError>)
        requires
            old(reader).wf(),
        ensures
            final(reader).wf(),
            final(reader).buffer@ == old(reader).buffer@,
            match dec_raw(old(reader).buffer@, old(reader).pos as int, length as int) {
                Option::Some((v, j)) => r matches Result::Ok(b) && b@ == v && final(reader).pos
                    == j,
                Option::None => r == Result::<Vec<u8>, DecodeError>::Err(DecodeError) && final(reader).pos == old(reader).pos,
            },
    {
        if length < 0 {
            Result::Err(DecodeError)
        } else {
            reader.read_raw(length as usize)
        }
    }
}

} // verus!
