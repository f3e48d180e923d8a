//! Response framing: the payload after the four-byte size prefix is the
//! response header followed by the body.
//!
//! Each response type has an abstract model (`V`), a spec decoder over
//! that model, and an executable decoder proved equivalent: it succeeds,
//! with exactly the spec value and cursor, if and only if the spec decoder
//! is defined at the cursor.

use vstd::prelude::*;
use crate::buffer_reader::{BufferReader, DecodeError};
use crate::header::ResponseHeader;
use crate::wire::dec_i32;

verus! {

/// A response body with a spec decoder over its abstract model.
pub trait FromBytes: Sized {
    /// The abstract model of the decoded value: sequences in place of
    /// vectors.
    type V;

    /// The model of this value.
    spec fn view_of(self) -> Self::V;

    /// The partial decode function: the model of the value and the
    /// position after it, where the bytes from `i` parse.
    spec fn spec_dec(s: Seq<u8>, i: int) -> Option<(Self::V, int)>;

    /// Decode; succeeds, with exactly the spec value and cursor, if and
    /// only if `spec_dec` is defined at the cursor.
    fn get_from_bytes(reader: &mut BufferReader) -> (r: Result<Self, DecodeError>)
        requires
            old(reader).wf(),
        ensures
            final(reader).wf(),
            final(reader).buffer@ == old(reader).buffer@,
            match Self::spec_dec(old(reader).buffer@, old(reader).pos as int) {
                Option::Some((v, j)) => r matches Result::Ok(x) && x.view_of() == v
                    && final(reader).pos == j,
                Option::None => r matches Result::Err(e) && e == DecodeError && final(reader).pos
                    == old(reader).pos,
            },
    ;
}

/// The models of the elements of a vector.
pub open spec fn views_of<T: FromBytes>(xs: Seq<T>) -> Seq<T::V> {
    xs.map_values(|t: T| t.view_of())
}

/// `n` consecutive elements, each by its own spec decoder.
pub open spec fn dec_elems<T: FromBytes>(s: Seq<u8>, i: int, n: nat) -> Option<(Seq<T::V>, int)>
    decreases n,
{
    if n == 0 {
        Option::Some((Seq::<T::V>::empty(), i))
    } else {
        match T::spec_dec(s, i) {
            Option::None => Option::None,
            Option::Some((x, j)) => match dec_elems::<T>(s, j, (n - 1) as nat) {
                Option::None => Option::None,
                Option::Some((xs, k)) => Option::Some((seq![x] + xs, k)),
            },
        }
    }
}

/// `array<T>`: `i32` count, then the elements; count -1 is the null
/// array, decoded as empty.
pub open spec fn dec_array<T: FromBytes>(s: Seq<u8>, i: int) -> Option<(Seq<T::V>, int)> {
    match dec_i32(s, i) {
        Option::None => Option::None,
        Option::Some((n, j)) => if n == -1 {
            Option::Some((Seq::<T::V>::empty(), j))
        } else if n < 0 {
            Option::None
        } else {
            dec_elems::<T>(s, j, n as nat)
        },
    }
}

/// Reads `n` consecutive elements; equivalent to `dec_elems`.
pub fn read_elems<T: FromBytes>(reader: &mut BufferReader, n: usize) -> (r: Result<
    Vec<T>,
    DecodeError,
>)
    requires
        old(reader).wf(),
    ensures
        final(reader).wf(),
        final(reader).buffer@ == old(reader).buffer@,
        match dec_elems::<T>(old(reader).buffer@, old(reader).pos as int, n as nat) {
            Option::Some((v, j)) => r matches Result::Ok(xs) && views_of(xs@) == v
                && final(reader).pos == j,
            Option::None => r matches Result::Err(e) && e == DecodeError && final(reader).pos
                == old(reader).pos,
        },
{
    let pos0 = reader.pos;
    let ghost s = reader.buffer@;
    let mut out: Vec<T> = Vec::new();
    let mut k: usize = 0;
    proof {
        if dec_elems::<T>(s, pos0 as int, n as nat) is Some {
            let p = dec_elems::<T>(s, pos0 as int, n as nat)->Some_0;
            assert(p.0 =~= views_of(out@) + p.0);
        }
    }
    loop
        invariant
            k <= n,
            reader.wf(),
            reader.buffer@ == s,
            dec_elems::<T>(s, pos0 as int, n as nat) matches Option::Some(p) ==> (dec_elems::<T>(
                s,
                reader.pos as int,
                (n - k) as nat,
            ) matches Option::Some(q) && p.0 == views_of(out@) + q.0 && p.1 == q.1),
            dec_elems::<T>(s, pos0 as int, n as nat) is None ==> dec_elems::<T>(
                s,
                reader.pos as int,
                (n - k) as nat,
            ) is None,
            out@.len() == k,
        ensures
            reader.wf(),
            reader.buffer@ == s,
            k <= n,
            k == n ==> (dec_elems::<T>(s, pos0 as int, n as nat) matches Option::Some(p) && p.0
                == views_of(out@) && p.1 == reader.pos),
            k < n ==> dec_elems::<T>(s, pos0 as int, n as nat) is None,
        decreases n - k,
    {
        if k == n {
            proof {
                assert(dec_elems::<T>(s, reader.pos as int, 0nat) matches Option::Some(q) && q.0
                    =~= Seq::<T::V>::empty());
                if dec_elems::<T>(s, pos0 as int, n as nat) is Some {
                    let p = dec_elems::<T>(s, pos0 as int, n as nat)->Some_0;
                    assert(p.0 =~= views_of(out@) + Seq::<T::V>::empty());
                    assert(p.0 =~= views_of(out@));
                }
            }
            break;
        }
        match T::get_from_bytes(reader) {
            Result::Err(_) => {
                proof {
                    assert(dec_elems::<T>(s, pos0 as int, n as nat) is None);
                }
                break;
            },
            Result::Ok(x) => {
                out.push(x);
                k = k + 1;
                proof {
                    if dec_elems::<T>(s, pos0 as int, n as nat) is Some {
                        let p = dec_elems::<T>(s, pos0 as int, n as nat)->Some_0;
                        let q = dec_elems::<T>(s, reader.pos as int, (n - k) as nat)->Some_0;
                        assert(p.0 =~= views_of(out@) + q.0);
                    }
                }
            },
        }
    }
    if k == n {
        Result::Ok(out)
    } else {
        reader.pos = pos0;
        Result::Err(DecodeError)
    }
}

/// Elements packed back to back from `i` to exactly `end`.  An element
/// that makes no progress, or runs past `end`, makes the region
/// ill-formed.
pub open spec fn dec_until<T: FromBytes>(s: Seq<u8>, i: int, end: int) -> Option<
    (Seq<T::V>, int),
>
    decreases end - i,
{
    if i >= end {
        if i == end {
            Option::Some((Seq::<T::V>::empty(), i))
        } else {
            Option::None
        }
    } else {
        match T::spec_dec(s, i) {
            Option::None => Option::None,
            Option::Some((x, j)) => if j <= i || j > end {
                Option::None
            } else {
                match dec_until::<T>(s, j, end) {
                    Option::None => Option::None,
                    Option::Some((xs, k)) => Option::Some((seq![x] + xs, k)),
                }
            },
        }
    }
}

/// Reads elements until the cursor reaches `end`; equivalent to
/// `dec_until`.
pub fn read_until<T: FromBytes>(reader: &mut BufferReader, end: usize) -> (r: Result<
    Vec<T>,
    DecodeError,
>)
    requires
        old(reader).wf(),
        old(reader).pos <= end,
    ensures
        final(reader).wf(),
        final(reader).buffer@ == old(reader).buffer@,
        match dec_until::<T>(old(reader).buffer@, old(reader).pos as int, end as int) {
            Option::Some((v, j)) => r matches Result::Ok(xs) && views_of(xs@) == v
                && final(reader).pos == j,
            Option::None => r matches Result::Err(e) && e == DecodeError && final(reader).pos
                == old(reader).pos,
        },
{
    let pos0 = reader.pos;
    let ghost s = reader.buffer@;
    let mut out: Vec<T> = Vec::new();
    let mut failed: bool = false;
    proof {
        if dec_until::<T>(s, pos0 as int, end as int) is Some {
            let p = dec_until::<T>(s, pos0 as int, end as int)->Some_0;
            assert(p.0 =~= views_of(out@) + p.0);
        }
    }
    while reader.pos < end && !failed
        invariant
            reader.wf(),
            reader.buffer@ == s,
            reader.pos <= end,
            !failed ==> (dec_until::<T>(s, pos0 as int, end as int) matches Option::Some(p) ==> (
            dec_until::<T>(s, reader.pos as int, end as int) matches Option::Some(q) && p.0
                == views_of(out@) + q.0 && p.1 == q.1)),
            !failed ==> (dec_until::<T>(s, pos0 as int, end as int) is None ==> dec_until::<T>(
                s,
                reader.pos as int,
                end as int,
            ) is None),
            failed ==> dec_until::<T>(s, pos0 as int, end as int) is None,
        decreases end - reader.pos + (if failed { 0int } else { 1int }),
    {
        let before = reader.pos;
        match T::get_from_bytes(reader) {
            Result::Err(_) => {
                proof {
                    assert(dec_until::<T>(s, before as int, end as int) is None);
                }
                failed = true;
            },
            Result::Ok(x) => {
                if reader.pos <= before || reader.pos > end {
                    proof {
                        assert(dec_until::<T>(s, before as int, end as int) is None);
                    }
                    reader.pos = before;
                    failed = true;
                } else {
                    out.push(x);
                    proof {
                        if dec_until::<T>(s, pos0 as int, end as int) is Some {
                            let p = dec_until::<T>(s, pos0 as int, end as int)->Some_0;
                            let q = dec_until::<T>(s, reader.pos as int, end as int)->Some_0;
                            assert(p.0 =~= views_of(out@) + q.0);
                        }
                    }
                }
            },
        }
    }
    if failed {
        reader.pos = pos0;
        Result::Err(DecodeError)
    } else {
        proof {
            if dec_until::<T>(s, pos0 as int, end as int) is Some {
                let p = dec_until::<T>(s, pos0 as int, end as int)->Some_0;
                assert(p.0 =~= views_of(out@) + Seq::<T::V>::empty());
                assert(p.0 =~= views_of(out@));
            }
        }
        Result::Ok(out)
    }
}

/// Reads an `i32` count, then that many elements, with count -1 read as
/// the empty array; equivalent to `dec_array`.
pub fn read_array<T: FromBytes>(reader: &mut BufferReader) -> (r: Result<Vec<T>, DecodeError>)
    requires
        old(reader).wf(),
    ensures
        final(reader).wf(),
        final(reader).buffer@ == old(reader).buffer@,
        match dec_array::<T>(old(reader).buffer@, old(reader).pos as int) {
            Option::Some((v, j)) => r matches Result::Ok(xs) && views_of(xs@) == v
                && final(reader).pos == j,
            Option::None => r matches Result::Err(e) && e == DecodeError && final(reader).pos
                == old(reader).pos,
        },
{
    let pos0 = reader.pos;
    match reader.read_int32() {
        Result::Err(e) => Result::Err(e),
        Result::Ok(n) => {
            if n == -1 {
                proof {
                    assert(views_of(Seq::<T>::empty()) =~= Seq::<T::V>::empty());
                }
                return Result::Ok(Vec::new());
            }
            if n < 0 {
                reader.pos = pos0;
                return Result::Err(DecodeError);
            }
            match read_elems::<T>(reader, n as usize) {
                Result::Err(e) => {
                    reader.pos = pos0;
                    Result::Err(e)
                },
                Result::Ok(xs) => Result::Ok(xs),
            }
        },
    }
}

/// A decoded response: the size from the frame, the header, the body.
#[derive(Debug)]
pub struct Response<T> {
    pub message_size: i32,
    pub header: ResponseHeader,
    pub body: T,
}

impl<T: FromBytes> Response<T> {
    /// Decodes a response payload, the bytes after the size prefix:
    /// correlation id first, then the body.
    pub fn build(message_size: i32, payload: Vec<u8>) -> (r: Result<Self, DecodeError>)
        ensures
            match dec_i32(payload@, 0) {
                Option::Some((cid, j)) => match T::spec_dec(payload@, j) {
                    Option::Some((b, _k)) => r matches Result::Ok(resp) && resp.message_size
                        == message_size && resp.header.correlation_id == cid
                        && resp.body.view_of() == b,
                    Option::None => r matches Result::Err(e) && e == DecodeError,
                },
                Option::None => r matches Result::Err(e) && e == DecodeError,
            },
    {
        let mut reader = BufferReader::new(payload);
        match ResponseHeader::get_from_bytes(&mut reader) {
            Result::Err(e) => Result::Err(e),
            Result::Ok(header) => {
                match T::get_from_bytes(&mut reader) {
                    Result::Err(e) => Result::Err(e),
                    Result::Ok(body) => Result::Ok(Self { message_size, header, body }),
                }
            },
        }
    }
}

} // verus!
