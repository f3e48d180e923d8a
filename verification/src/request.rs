//! Request framing: `i32 size || RequestHeader || body`.
//!
//! The size field counts every byte after itself, so a framed request of
//! `n` bytes starts with the big-endian encoding of `n - 4`.

use vstd::prelude::*;
use crate::buffer_writer::BufferWriter;
use crate::header::RequestHeader;
use crate::wire::enc_i32;

verus! {

/// A request body that can state and produce its exact wire bytes.
pub trait ToBytes {
    /// The fields fit their length prefixes.
    spec fn wf(&self) -> bool;

    /// The exact bytes this value encodes to.
    spec fn spec_bytes(&self) -> Seq<u8>;

    /// Encode; the result is exactly `spec_bytes`.
    fn get_in_bytes(&self) -> (r: Vec<u8>)
        requires
            self.wf(),
        ensures
            r@ == self.spec_bytes(),
    ;
}

/// The concatenated encodings of a sequence of body elements.
pub open spec fn enc_elems<T: ToBytes>(xs: Seq<T>) -> Seq<u8>
    decreases xs.len(),
{
    if xs.len() == 0 {
        Seq::<u8>::empty()
    } else {
        xs[0].spec_bytes() + enc_elems(xs.skip(1))
    }
}

/// `array<T>`: `i32` count, then the encodings of the elements.
pub open spec fn enc_array<T: ToBytes>(xs: Seq<T>) -> Seq<u8> {
    enc_i32(xs.len() as i32) + enc_elems(xs)
}

/// Writes the elements, without a count.
pub fn write_elems<T: ToBytes>(w: &mut BufferWriter, xs: &Vec<T>)
    requires
        forall|k: int| 0 <= k < xs@.len() ==> #[trigger] xs@[k].wf(),
    ensures
        final(w).buffer@ == old(w).buffer@ + enc_elems(xs@),
{
    let ghost s0 = w.buffer@;
    let mut k: usize = 0;
    proof {
        assert(xs@.skip(0) =~= xs@);
        assert(w.buffer@ + enc_elems(xs@.skip(0)) =~= s0 + enc_elems(xs@));
    }
    while k < xs.len()
        invariant
            k <= xs@.len(),
            forall|m: int| 0 <= m < xs@.len() ==> #[trigger] xs@[m].wf(),
            w.buffer@ + enc_elems(xs@.skip(k as int)) == s0 + enc_elems(xs@),
        decreases xs@.len() - k,
    {
        let bytes = xs[k].get_in_bytes();
        w.write_raw(&bytes);
        k = k + 1;
        proof {
            let prev = xs@.skip(k - 1 as int);
            assert(prev[0] == xs@[k - 1]);
            assert(prev.skip(1) =~= xs@.skip(k as int));
            assert(enc_elems(prev) == xs@[k - 1].spec_bytes() + enc_elems(xs@.skip(k as int)));
            assert(w.buffer@ + enc_elems(xs@.skip(k as int)) =~= s0 + enc_elems(xs@));
        }
    }
    proof {
        assert(enc_elems(xs@.skip(k as int)) =~= Seq::<u8>::empty());
        assert(w.buffer@ =~= w.buffer@ + enc_elems(xs@.skip(k as int)));
        assert(w.buffer@ =~= s0 + enc_elems(xs@));
    }
}

/// Writes the `i32` count, then the elements.
pub fn write_array<T: ToBytes>(w: &mut BufferWriter, xs: &Vec<T>)
    requires
        xs@.len() <= i32::MAX,
        forall|k: int| 0 <= k < xs@.len() ==> #[trigger] xs@[k].wf(),
    ensures
        final(w).buffer@ == old(w).buffer@ + enc_array(xs@),
{
    w.write_int32(xs.len() as i32);
    write_elems(w, xs);
    proof {
        assert(old(w).buffer@ + enc_i32(xs@.len() as i32) + enc_elems(xs@) =~= old(w).buffer@
            + enc_array(xs@));
    }
}

/// A framed request: the size prefix, the header, and the body, together
/// with the finished wire bytes.
#[derive(Debug)]
pub struct Request<T> {
    pub size: i32,
    pub header: RequestHeader,
    pub body: T,
    pub buffer: Vec<u8>,
}

impl<T: ToBytes> Request<T> {
    /// Frames `header || body` behind its size prefix.  The finished
    /// buffer starts with the big-endian byte count of everything after
    /// the prefix, which is the framing invariant every request obeys.
    pub fn new(header: RequestHeader, body: T) -> (r: Self)
        requires
            header.wf(),
            body.wf(),
            header.spec_bytes().len() + body.spec_bytes().len() <= i32::MAX - 4,
        ensures
            r.header == header,
            r.body == body,
            r.size == header.spec_bytes().len() + body.spec_bytes().len(),
            r.buffer@ == enc_i32(r.size) + header.spec_bytes() + body.spec_bytes(),
            r.buffer@.len() == r.size + 4,
            r.buffer@.take(4) == enc_i32((r.buffer@.len() - 4) as i32),
    {
        let mut w = BufferWriter::new();
        w.write_int32(0);
        let header_bytes = header.get_in_bytes();
        w.write_raw(&header_bytes);
        let body_bytes = body.get_in_bytes();
        w.write_raw(&body_bytes);
        let mut buffer = w.buffer;
        let size = Self::add_size(&mut buffer);
        proof {
            assert(buffer@ =~= enc_i32(size) + header.spec_bytes() + body.spec_bytes());
            assert(buffer@.take(4) =~= enc_i32(size));
        }
        Self { size, header, body, buffer }
    }

    /// Replaces the four reserved bytes at the front with the big-endian
    /// count of the bytes after them, and returns that count.
    pub fn add_size(buffer: &mut Vec<u8>) -> (n: i32)
        requires
            4 <= old(buffer)@.len(),
            old(buffer)@.len() - 4 <= i32::MAX,
        ensures
            n == old(buffer)@.len() - 4,
            final(buffer)@ == enc_i32(n) + old(buffer)@.skip(4),
            final(buffer)@.len() == old(buffer)@.len(),
    {
        let n: i32 = (buffer.len() - 4) as i32;
        BufferWriter::add_size(buffer);
        n
    }
}

} // verus!
