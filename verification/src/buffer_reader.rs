//! Positional cursor over a received byte buffer.
//!
//! Every read method is proved equivalent to the corresponding spec decoder:
//! it returns exactly the value and new position the spec decoder gives, and
//! fails, leaving the position unchanged, exactly when the spec decoder is
//! undefined at the current position.

use vstd::prelude::*;
use crate::wire::{dec_bool, dec_bytes, dec_i8, dec_i16, dec_i32, dec_i32_array, dec_i32_elems,
    dec_i64, dec_nullable_string, dec_raw, dec_string};

verus! {

/// A response that does not follow the wire format, or ends too early.
#[derive(Debug, Clone, Copy, PartialEq, Eq, Structural)]
pub struct DecodeError;

pub struct BufferReader {
    pub buffer: Vec<u8>,
    pub pos: usize,
}

impl BufferReader {
    /// The cursor never passes the end of the buffer.
    pub open spec fn wf(self) -> bool {
        self.pos <= self.buffer@.len()
    }

    pub fn new(buffer: Vec<u8>) -> (r: Self)
        ensures
            r.buffer@ == buffer@,
            r.pos == 0,
            r.wf(),
    {
        Self { buffer, pos: 0 }
    }

    /// How many bytes remain from the cursor to the end.
    pub fn remaining(&self) -> (n: usize)
        requires
            self.wf(),
        ensures
            n == self.buffer@.len() - self.pos,
    {
        self.buffer.len() - self.pos
    }

    pub fn read_bool(&mut self) -> (r: Result<bool, DecodeError>)
        requires
            old(self).wf(),
        ensures
            final(self).wf(),
            final(self).buffer@ == old(self).buffer@,
            match dec_bool(old(self).buffer@, old(self).pos as int) {
                Option::Some((v, j)) => r == Result::<bool, DecodeError>::Ok(v) && final(self).pos == j,
                Option::None => r == Result::<bool, DecodeError>::Err(DecodeError) && final(self).pos == old(self).pos,
            },
    {
        if self.buffer.len() - self.pos >= 1 {
            let b = self.buffer[self.pos];
            self.pos = self.pos + 1;
            Result::Ok(b != 0)
        } else {
            Result::Err(DecodeError)
        }
    }

    pub fn read_int8(&mut self) -> (r: Result<i8, DecodeError>)
        requires
            old(self).wf(),
        ensures
            final(self).wf(),
            final(self).buffer@ == old(self).buffer@,
            match dec_i8(old(self).buffer@, old(self).pos as int) {
                Option::Some((v, j)) => r == Result::<i8, DecodeError>::Ok(v) && final(self).pos
                    == j,
                Option::None => r == Result::<i8, DecodeError>::Err(DecodeError) && final(self).pos == old(self).pos,
            },
    {
        if self.buffer.len() - self.pos >= 1 {
            let b = self.buffer[self.pos];
            self.pos = self.pos + 1;
            Result::Ok(b as i8)
        } else {
            Result::Err(DecodeError)
        }
    }

    pub fn read_int16(&mut self) -> (r: Result<i16, DecodeError>)
        requires
            old(self).wf(),
        ensures
            final(self).wf(),
            final(self).buffer@ == old(self).buffer@,
            match dec_i16(old(self).buffer@, old(self).pos as int) {
                Option::Some((v, j)) => r == Result::<i16, DecodeError>::Ok(v) && final(self).pos == j,
                Option::None => r == Result::<i16, DecodeError>::Err(DecodeError) && final(self).pos == old(self).pos,
            },
    {
        if self.buffer.len() - self.pos >= 2 {
            let b0 = self.buffer[self.pos];
            let b1 = self.buffer[self.pos + 1];
            self.pos = self.pos + 2;
            Result::Ok(((b0 as u16) << 8 | (b1 as u16)) as i16)
        } else {
            Result::Err(DecodeError)
        }
    }

    pub fn read_int32(&mut self) -> (r: Result<i32, DecodeError>)
        requires
            old(self).wf(),
        ensures
            final(self).wf(),
            final(self).buffer@ == old(self).buffer@,
            match dec_i32(old(self).buffer@, old(self).pos as int) {
                Option::Some((v, j)) => r == Result::<i32, DecodeError>::Ok(v) && final(self).pos == j,
                Option::None => r == Result::<i32, DecodeError>::Err(DecodeError) && final(self).pos == old(self).pos,
            },
    {
        if self.buffer.len() - self.pos >= 4 {
            let b0 = self.buffer[self.pos];
            let b1 = self.buffer[self.pos + 1];
            let b2 = self.buffer[self.pos + 2];
            let b3 = self.buffer[self.pos + 3];
            self.pos = self.pos + 4;
            Result::Ok(
                ((b0 as u32) << 24 | (b1 as u32) << 16 | (b2 as u32) << 8 | (b3 as u32)) as i32,
            )
        } else {
            Result::Err(DecodeError)
        }
    }

    pub fn read_int64(&mut self) -> (r: Result<i64, DecodeError>)
        requires
            old(self).wf(),
        ensures
            final(self).wf(),
            final(self).buffer@ == old(self).buffer@,
            match dec_i64(old(self).buffer@, old(self).pos as int) {
                Option::Some((v, j)) => r == Result::<i64, DecodeError>::Ok(v) && final(self).pos == j,
                Option::None => r == Result::<i64, DecodeError>::Err(DecodeError) && final(self).pos == old(self).pos,
            },
    {
        if self.buffer.len() - self.pos >= 8 {
            let b0 = self.buffer[self.pos];
            let b1 = self.buffer[self.pos + 1];
            let b2 = self.buffer[self.pos + 2];
            let b3 = self.buffer[self.pos + 3];
            let b4 = self.buffer[self.pos + 4];
            let b5 = self.buffer[self.pos + 5];
            let b6 = self.buffer[self.pos + 6];
            let b7 = self.buffer[self.pos + 7];
            self.pos = self.pos + 8;
            Result::Ok(
                ((b0 as u64) << 56 | (b1 as u64) << 48 | (b2 as u64) << 40 | (b3 as u64) << 32 | (
                b4 as u64) << 24 | (b5 as u64) << 16 | (b6 as u64) << 8 | (b7 as u64)) as i64,
            )
        } else {
            Result::Err(DecodeError)
        }
    }

    /// `n` raw bytes from the cursor.
    pub fn read_raw(&mut self, n: usize) -> (r: Result<Vec<u8>, DecodeError>)
        requires
            old(self).wf(),
        ensures
            final(self).wf(),
            final(self).buffer@ == old(self).buffer@,
            match dec_raw(old(self).buffer@, old(self).pos as int, n as int) {
                Option::Some((v, j)) => r matches Result::Ok(b) && b@ == v && final(self).pos
                    == j,
                Option::None => r == Result::<Vec<u8>, DecodeError>::Err(DecodeError) && final(self).pos == old(self).pos,
            },
    {
        if self.buffer.len() - self.pos >= n {
            let mut out: Vec<u8> = Vec::new();
            let mut j: usize = 0;
            while j < n
                invariant
                    j <= n,
                    self.pos + n <= self.buffer@.len(),
                    self.buffer@.len() <= usize::MAX,
                    self.buffer@ == old(self).buffer@,
                    self.pos == old(self).pos,
                    out@ == self.buffer@.subrange(self.pos as int, self.pos + j),
                decreases n - j,
            {
                out.push(self.buffer[self.pos + j]);
                j = j + 1;
                proof {
                    assert(out@ =~= self.buffer@.subrange(self.pos as int, self.pos + j));
                }
            }
            self.pos = self.pos + n;
            Result::Ok(out)
        } else {
            Result::Err(DecodeError)
        }
    }

    /// `string`: `i16` length, which must not be negative, then the bytes.
    pub fn read_str(&mut self) -> (r: Result<Vec<u8>, DecodeError>)
        requires
            old(self).wf(),
        ensures
            final(self).wf(),
            final(self).buffer@ == old(self).buffer@,
            match dec_string(old(self).buffer@, old(self).pos as int) {
                Option::Some((v, j)) => r matches Result::Ok(b) && b@ == v && final(self).pos
                    == j,
                Option::None => r == Result::<Vec<u8>, DecodeError>::Err(DecodeError) && final(self).pos == old(self).pos,
            },
    {
        let pos0 = self.pos;
        match self.read_int16() {
            Result::Err(e) => Result::Err(e),
            Result::Ok(n) => {
                if n < 0 {
                    self.pos = pos0;
                    Result::Err(DecodeError)
                } else {
                    match self.read_raw(n as usize) {
                        Result::Err(e) => {
                            self.pos = pos0;
                            Result::Err(e)
                        },
                        Result::Ok(b) => Result::Ok(b),
                    }
                }
            },
        }
    }

    /// `nullable_string`: length -1 is null.
    pub fn read_nullable_str(&mut self) -> (r: Result<Option<Vec<u8>>, DecodeError>)
        requires
            old(self).wf(),
        ensures
            final(self).wf(),
            final(self).buffer@ == old(self).buffer@,
            match dec_nullable_string(old(self).buffer@, old(self).pos as int) {
                Option::Some((v, j)) => r matches Result::Ok(o) && final(self).pos == j && match (
                    o,
                    v,
                ) {
                    (Option::None, Option::None) => true,
                    (Option::Some(b), Option::Some(bs)) => b@ == bs,
                    _ => false,
                },
                Option::None => r == Result::<Option<Vec<u8>>, DecodeError>::Err(DecodeError)
                    && final(self).pos == old(self).pos,
            },
    {
        let pos0 = self.pos;
        match self.read_int16() {
            Result::Err(e) => Result::Err(e),
            Result::Ok(n) => {
                if n == -1 {
                    Result::Ok(Option::None)
                } else if n < 0 {
                    self.pos = pos0;
                    Result::Err(DecodeError)
                } else {
                    match self.read_raw(n as usize) {
                        Result::Err(e) => {
                            self.pos = pos0;
                            Result::Err(e)
                        },
                        Result::Ok(b) => Result::Ok(Option::Some(b)),
                    }
                }
            },
        }
    }

    /// `bytes`: `i32` length, which must not be negative, then the bytes.
    pub fn read_bytes(&mut self) -> (r: Result<Vec<u8>, DecodeError>)
        requires
            old(self).wf(),
        ensures
            final(self).wf(),
            final(self).buffer@ == old(self).buffer@,
            match dec_bytes(old(self).buffer@, old(self).pos as int) {
                Option::Some((v, j)) => r matches Result::Ok(b) && b@ == v && final(self).pos
                    == j,
                Option::None => r == Result::<Vec<u8>, DecodeError>::Err(DecodeError) && final(self).pos == old(self).pos,
            },
    {
        let pos0 = self.pos;
        match self.read_int32() {
            Result::Err(e) => Result::Err(e),
            Result::Ok(n) => {
                if n < 0 {
                    self.pos = pos0;
                    Result::Err(DecodeError)
                } else {
                    match self.read_raw(n as usize) {
                        Result::Err(e) => {
                            self.pos = pos0;
                            Result::Err(e)
                        },
                        Result::Ok(b) => Result::Ok(b),
                    }
                }
            },
        }
    }

    /// `array<i32>`: `i32` count, then the elements; count -1 is the
    /// null array, read as empty.
    pub fn read_array_int(&mut self) -> (r: Result<Vec<i32>, DecodeError>)
        requires
            old(self).wf(),
        ensures
            final(self).wf(),
            final(self).buffer@ == old(self).buffer@,
            match dec_i32_array(old(self).buffer@, old(self).pos as int) {
                Option::Some((v, j)) => r matches Result::Ok(xs) && xs@ == v && final(self).pos
                    == j,
                Option::None => r == Result::<Vec<i32>, DecodeError>::Err(DecodeError) && final(self).pos == old(self).pos,
            },
    {
        let pos0 = self.pos;
        let ghost s = self.buffer@;
        match self.read_int32() {
            Result::Err(e) => Result::Err(e),
            Result::Ok(n) => {
                if n == -1 {
                    return Result::Ok(Vec::new());
                }
                if n < 0 {
                    self.pos = pos0;
                    return Result::Err(DecodeError);
                }
                let count = n as usize;
                let mut out: Vec<i32> = Vec::new();
                let mut k: usize = 0;
                proof {
                    if dec_i32_elems(s, pos0 + 4, count as nat) is Some {
                        let p = dec_i32_elems(s, pos0 + 4, count as nat)->Some_0;
                        assert(p.0 =~= out@ + p.0);
                    }
                }
                loop
                    invariant
                        k <= count,
                        self.wf(),
                        self.buffer@ == s,
                        dec_i32_elems(s, pos0 + 4, count as nat) matches Option::Some(p)
                            ==> (dec_i32_elems(s, self.pos as int, (count - k) as nat)
                            matches Option::Some(q) && p.0 == out@ + q.0 && p.1 == q.1),
                        dec_i32_elems(s, pos0 + 4, count as nat) is None ==> dec_i32_elems(
                            s,
                            self.pos as int,
                            (count - k) as nat,
                        ) is None,
                        out@.len() == k,
                    ensures
                        self.wf(),
                        self.buffer@ == s,
                        k <= count,
                        k == count ==> (dec_i32_elems(s, pos0 + 4, count as nat)
                            matches Option::Some(p) && p.0 == out@ && p.1 == self.pos),
                        k < count ==> dec_i32_elems(s, pos0 + 4, count as nat) is None,
                    decreases count - k,
                {
                    if k == count {
                        proof {
                            assert(dec_i32_elems(s, self.pos as int, 0nat)
                                == Option::<(Seq<i32>, int)>::Some((Seq::<i32>::empty(), self.pos as int)));
                            if dec_i32_elems(s, pos0 + 4, count as nat) is Some {
                                let p = dec_i32_elems(s, pos0 + 4, count as nat)->Some_0;
                                assert(p.0 =~= out@ + Seq::<i32>::empty());
                                assert(p.0 =~= out@);
                            }
                        }
                        break;
                    }
                    match self.read_int32() {
                        Result::Err(_) => {
                            proof {
                                assert(dec_i32_elems(s, pos0 + 4, count as nat) is None);
                            }
                            break;
                        },
                        Result::Ok(x) => {
                            out.push(x);
                            k = k + 1;
                            proof {
                                if dec_i32_elems(s, pos0 + 4, count as nat) is Some {
                                    let p = dec_i32_elems(s, pos0 + 4, count as nat)->Some_0;
                                    let q = dec_i32_elems(
                                        s,
                                        self.pos as int,
                                        (count - k) as nat,
                                    )->Some_0;
                                    assert(p.0 =~= out@ + q.0);
                                }
                            }
                        },
                    }
                }
                if k == count {
                    Result::Ok(out)
                } else {
                    self.pos = pos0;
                    Result::Err(DecodeError)
                }
            },
        }
    }
}

} // verus!
