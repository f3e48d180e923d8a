//! Append-only byte buffer for building wire messages.
//!
//! Every write method extends the buffer by exactly the spec encoding of its
//! argument, so the bytes of a finished message are the concatenation of the
//! encodings in write order.

use vstd::prelude::*;
use crate::wire::{enc_bool, enc_bytes, enc_i8, enc_i16, enc_i32, enc_i32_array, enc_i32_elems,
    enc_i64, enc_nullable_string, enc_string, enc_uvarint, enc_varint, enc_varlen_bytes, zigzag};

verus! {

pub struct BufferWriter {
    pub buffer: Vec<u8>,
}

impl BufferWriter {
    pub fn new() -> (w: Self)
        ensures
            w.buffer@ == Seq::<u8>::empty(),
    {
        Self { buffer: Vec::new() }
    }

    /// One byte, 0 or 1.
    pub fn write_bool(&mut self, value: bool)
        ensures
            final(self).buffer@ == old(self).buffer@ + enc_bool(value),
    {
        self.buffer.push(if value { 1u8 } else { 0u8 });
        proof {
            assert(self.buffer@ =~= old(self).buffer@ + enc_bool(value));
        }
    }

    pub fn write_int8(&mut self, value: i8)
        ensures
            final(self).buffer@ == old(self).buffer@ + enc_i8(value),
    {
        self.buffer.push(value as u8);
        proof {
            assert(self.buffer@ =~= old(self).buffer@ + enc_i8(value));
        }
    }

    /// Big-endian two's-complement.
    pub fn write_int16(&mut self, value: i16)
        ensures
            final(self).buffer@ == old(self).buffer@ + enc_i16(value),
    {
        let u = value as u16;
        self.buffer.push((u >> 8) as u8);
        self.buffer.push(u as u8);
        proof {
            assert(self.buffer@ =~= old(self).buffer@ + enc_i16(value));
        }
    }

    pub fn write_int32(&mut self, value: i32)
        ensures
            final(self).buffer@ == old(self).buffer@ + enc_i32(value),
    {
        let u = value as u32;
        self.buffer.push((u >> 24) as u8);
        self.buffer.push((u >> 16) as u8);
        self.buffer.push((u >> 8) as u8);
        self.buffer.push(u as u8);
        proof {
            assert(self.buffer@ =~= old(self).buffer@ + enc_i32(value));
        }
    }

    pub fn write_int64(&mut self, value: i64)
        ensures
            final(self).buffer@ == old(self).buffer@ + enc_i64(value),
    {
        let u = value as u64;
        self.buffer.push((u >> 56) as u8);
        self.buffer.push((u >> 48) as u8);
        self.buffer.push((u >> 40) as u8);
        self.buffer.push((u >> 32) as u8);
        self.buffer.push((u >> 24) as u8);
        self.buffer.push((u >> 16) as u8);
        self.buffer.push((u >> 8) as u8);
        self.buffer.push(u as u8);
        proof {
            assert(self.buffer@ =~= old(self).buffer@ + enc_i64(value));
        }
    }

    /// The raw bytes, with no length prefix.
    pub fn write_raw(&mut self, value: &Vec<u8>)
        ensures
            final(self).buffer@ == old(self).buffer@ + value@,
    {
        let mut j: usize = 0;
        while j < value.len()
            invariant
                j <= value@.len(),
                self.buffer@ == old(self).buffer@ + value@.take(j as int),
            decreases value@.len() - j,
        {
            self.buffer.push(value[j]);
            j = j + 1;
            proof {
                assert(self.buffer@ =~= old(self).buffer@ + value@.take(j as int));
            }
        }
        proof {
            assert(value@.take(value@.len() as int) =~= value@);
        }
    }

    /// `string`: `i16` byte length, then the bytes.
    pub fn write_str(&mut self, value: &Vec<u8>)
        requires
            value@.len() <= i16::MAX,
        ensures
            final(self).buffer@ == old(self).buffer@ + enc_string(value@),
    {
        self.write_int16(value.len() as i16);
        self.write_raw(value);
    }

    /// `nullable_string`: length -1 for null, else as `string`.
    pub fn write_nullable_str(&mut self, value: &Option<Vec<u8>>)
        requires
            value matches Option::Some(b) ==> b@.len() <= i16::MAX,
        ensures
            final(self).buffer@ == old(self).buffer@ + enc_nullable_string(
                match value {
                    Option::None => Option::None,
                    Option::Some(b) => Option::Some(b@),
                },
            ),
    {
        match value {
            Option::None => {
                self.write_int16(-1);
            },
            Option::Some(b) => {
                self.write_str(b);
            },
        }
    }

    /// Base-128 groups, least significant first.
    pub fn write_uvarint(&mut self, u: u32)
        ensures
            final(self).buffer@ == old(self).buffer@ + enc_uvarint(u),
        decreases u,
    {
        if u < 128 {
            self.buffer.push(u as u8);
            proof {
                assert(self.buffer@ =~= old(self).buffer@ + enc_uvarint(u));
            }
        } else {
            self.buffer.push((u % 128 + 128) as u8);
            self.write_uvarint(u / 128);
            proof {
                assert(self.buffer@ =~= old(self).buffer@ + enc_uvarint(u));
            }
        }
    }

    /// Zig-zag signed varint.
    pub fn write_varint(&mut self, n: i32)
        ensures
            final(self).buffer@ == old(self).buffer@ + enc_varint(n),
    {
        let z: u32 = if n >= 0 {
            (n as u32) * 2
        } else {
            let m: u32 = (-(n as i64)) as u32;
            (m - 1) * 2 + 1
        };
        proof {
            assert(z == zigzag(n));
        }
        self.write_uvarint(z);
    }

    /// Varint byte length, then the bytes.
    pub fn write_varlen_bytes(&mut self, value: &Vec<u8>)
        requires
            value@.len() <= i32::MAX,
        ensures
            final(self).buffer@ == old(self).buffer@ + enc_varlen_bytes(value@),
    {
        self.write_varint(value.len() as i32);
        self.write_raw(value);
    }

    /// `bytes`: `i32` byte length, then the bytes.
    pub fn write_bytes(&mut self, value: &Vec<u8>)
        requires
            value@.len() <= i32::MAX,
        ensures
            final(self).buffer@ == old(self).buffer@ + enc_bytes(value@),
    {
        self.write_int32(value.len() as i32);
        self.write_raw(value);
    }

    /// `array<i32>`: `i32` count, then the elements.
    pub fn write_array_int(&mut self, xs: &Vec<i32>)
        requires
            xs@.len() <= i32::MAX,
        ensures
            final(self).buffer@ == old(self).buffer@ + enc_i32_array(xs@),
    {
        self.write_int32(xs.len() as i32);
        let ghost s0 = self.buffer@;
        let mut k: usize = 0;
        proof {
            assert(xs@.skip(0) =~= xs@);
            assert(self.buffer@ + enc_i32_elems(xs@.skip(0)) =~= s0 + enc_i32_elems(xs@));
        }
        while k < xs.len()
            invariant
                k <= xs@.len(),
                self.buffer@ + enc_i32_elems(xs@.skip(k as int)) == s0 + enc_i32_elems(xs@),
            decreases xs@.len() - k,
        {
            self.write_int32(xs[k]);
            k = k + 1;
            proof {
                let prev = xs@.skip(k - 1 as int);
                assert(prev[0] == xs@[k - 1]);
                assert(prev.skip(1) =~= xs@.skip(k as int));
                assert(self.buffer@ + enc_i32_elems(xs@.skip(k as int)) =~= s0 + enc_i32_elems(
                    xs@,
                ));
            }
        }
        proof {
            assert(enc_i32_elems(xs@.skip(k as int)) =~= Seq::<u8>::empty());
            assert(self.buffer@ =~= self.buffer@ + enc_i32_elems(xs@.skip(k as int)));
            assert(old(self).buffer@ + enc_i32_array(xs@) =~= s0 + enc_i32_elems(xs@));
        }
    }

    /// Splices the message size, in bytes past the four-byte prefix, into
    /// the four bytes that were reserved for it.
    pub fn add_size(buffer: &mut Vec<u8>)
        requires
            4 <= old(buffer)@.len(),
            old(buffer)@.len() - 4 <= i32::MAX,
        ensures
            final(buffer)@ == enc_i32((old(buffer)@.len() - 4) as i32) + old(buffer)@.skip(4),
    {
        let n: i32 = (buffer.len() - 4) as i32;
        let u = n as u32;
        buffer.set(0, (u >> 24) as u8);
        buffer.set(1, (u >> 16) as u8);
        buffer.set(2, (u >> 8) as u8);
        buffer.set(3, u as u8);
        proof {
            assert(buffer@ =~= enc_i32(n) + old(buffer)@.skip(4));
        }
    }
}

} // verus!
