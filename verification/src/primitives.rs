//! Typed wire primitives: varints, varint-length byte blobs, and
//! length-prefixed strings.
//!
//! Protocol strings are held as their UTF-8 bytes; the wire format carries
//! plain bytes and the codec never needs to inspect characters.

use vstd::prelude::*;
use crate::buffer_reader::{BufferReader, DecodeError};
use crate::buffer_utils::BufferUtils;
use crate::buffer_writer::BufferWriter;
use crate::request::ToBytes;
use crate::wire::{dec_nullable_string, dec_string, dec_varint, dec_varlen_bytes,
    enc_nullable_string, enc_string, enc_varint, enc_varlen_bytes};

verus! {

/// A zig-zag signed 32-bit varint.
#[derive(Debug, Clone)]
pub struct VarInt(pub i32);

impl VarInt {
    pub open spec fn spec_bytes(self) -> Seq<u8> {
        enc_varint(self.0)
    }

    pub fn write_to_buffer(&self, w: &mut BufferWriter)
        ensures
            final(w).buffer@ == old(w).buffer@ + self.spec_bytes(),
    {
        w.write_varint(self.0);
    }

    pub fn read_from_buffer(reader: &mut BufferReader) -> (r: Result<Self, DecodeError>)
        requires
            old(reader).wf(),
        ensures
            final(reader).wf(),
            final(reader).buffer@ == old(reader).buffer@,
            match dec_varint(old(reader).buffer@, old(reader).pos as int) {
                Option::Some((v, j)) => r matches Result::Ok(x) && x.0 == v && final(reader).pos
                    == j,
                Option::None => r == Result::<Self, DecodeError>::Err(DecodeError)
                    && final(reader).pos == old(reader).pos,
            },
    {
        match BufferUtils::read_varint(reader) {
            Result::Err(e) => Result::Err(e),
            Result::Ok(v) => Result::Ok(VarInt(v)),
        }
    }
}

/// A byte blob with a varint length prefix, as used inside record batches.
#[derive(Debug, Clone)]
pub struct KafkaValue(pub Vec<u8>);

impl KafkaValue {
    pub open spec fn wf(self) -> bool {
        self.0@.len() <= i32::MAX
    }

    pub open spec fn spec_bytes(self) -> Seq<u8> {
        enc_varlen_bytes(self.0@)
    }

    pub fn write_to_buffer(&self, w: &mut BufferWriter)
        requires
            self.wf(),
        ensures
            final(w).buffer@ == old(w).buffer@ + self.spec_bytes(),
    {
        w.write_varlen_bytes(&self.0);
    }

    pub fn read_from_buffer(reader: &mut BufferReader) -> (r: Result<Self, DecodeError>)
        requires
            old(reader).wf(),
        ensures
            final(reader).wf(),
            final(reader).buffer@ == old(reader).buffer@,
            match dec_varlen_bytes(old(reader).buffer@, old(reader).pos as int) {
                Option::Some((v, j)) => r matches Result::Ok(x) && x.0@ == v && x.wf()
                    && final(reader).pos == j,
                Option::None => r == Result::<Self, DecodeError>::Err(DecodeError)
                    && final(reader).pos == old(reader).pos,
            },
    {
        let pos0 = reader.pos;
        match BufferUtils::read_varint(reader) {
            Result::Err(e) => Result::Err(e),
            Result::Ok(n) => {
                if n < 0 {
                    reader.pos = pos0;
                    Result::Err(DecodeError)
                } else {
                    match BufferUtils::read_string(n, reader) {
                        Result::Err(e) => {
                            reader.pos = pos0;
                            Result::Err(e)
                        },
                        Result::Ok(b) => Result::Ok(KafkaValue(b)),
                    }
                }
            },
        }
    }
}

/// A non-null protocol string: `i16` byte length, then UTF-8 bytes.
#[derive(Debug, Clone)]
pub struct KafkaString(pub Vec<u8>);

impl KafkaString {
    pub open spec fn wf(self) -> bool {
        self.0@.len() <= i16::MAX
    }

    pub open spec fn spec_bytes(self) -> Seq<u8> {
        enc_string(self.0@)
    }

    pub fn write_to_buffer(&self, w: &mut BufferWriter)
        requires
            self.wf(),
        ensures
            final(w).buffer@ == old(w).buffer@ + self.spec_bytes(),
    {
        w.write_str(&self.0);
    }

    pub fn read_from_buffer(reader: &mut BufferReader) -> (r: Result<Self, DecodeError>)
        requires
            old(reader).wf(),
        ensures
            final(reader).wf(),
            final(reader).buffer@ == old(reader).buffer@,
            match dec_string(old(reader).buffer@, old(reader).pos as int) {
                Option::Some((v, j)) => r matches Result::Ok(x) && x.0@ == v && x.wf()
                    && final(reader).pos == j,
                Option::None => r == Result::<Self, DecodeError>::Err(DecodeError)
                    && final(reader).pos == old(reader).pos,
            },
    {
        match reader.read_str() {
            Result::Err(e) => Result::Err(e),
            Result::Ok(b) => Result::Ok(KafkaString(b)),
        }
    }
}

impl ToBytes for KafkaString {
    open spec fn wf(&self) -> bool {
        KafkaString::wf(*self)
    }

    open spec fn spec_bytes(&self) -> Seq<u8> {
        KafkaString::spec_bytes(*self)
    }

    fn get_in_bytes(&self) -> (r: Vec<u8>) {
        let mut w = BufferWriter::new();
        self.write_to_buffer(&mut w);
        w.buffer
    }
}

/// A protocol string that may be null; null is written as length -1.
#[derive(Debug, Clone)]
pub struct KafkaNullableString(pub Option<Vec<u8>>);

impl KafkaNullableString {
    pub open spec fn wf(self) -> bool {
        self.0 matches Option::Some(b) ==> b@.len() <= i16::MAX
    }

    pub open spec fn spec_view(self) -> Option<Seq<u8>> {
        match self.0 {
            Option::None => Option::None,
            Option::Some(b) => Option::Some(b@),
        }
    }

    pub open spec fn spec_bytes(self) -> Seq<u8> {
        enc_nullable_string(self.spec_view())
    }

    pub fn write_to_buffer(&self, w: &mut BufferWriter)
        requires
            self.wf(),
        ensures
            final(w).buffer@ == old(w).buffer@ + self.spec_bytes(),
    {
        w.write_nullable_str(&self.0);
    }

    pub fn read_from_buffer(reader: &mut BufferReader) -> (r: Result<Self, DecodeError>)
        requires
            old(reader).wf(),
        ensures
            final(reader).wf(),
            final(reader).buffer@ == old(reader).buffer@,
            match dec_nullable_string(old(reader).buffer@, old(reader).pos as int) {
                Option::Some((v, j)) => r matches Result::Ok(x) && x.spec_view() == v && x.wf()
                    && final(reader).pos == j,
                Option::None => r == Result::<Self, DecodeError>::Err(DecodeError)
                    && final(reader).pos == old(reader).pos,
            },
    {
        match reader.read_nullable_str() {
            Result::Err(e) => Result::Err(e),
            Result::Ok(o) => Result::Ok(KafkaNullableString(o)),
        }
    }
}

} // verus!
