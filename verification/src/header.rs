//! Request and response headers.

use vstd::prelude::*;
use crate::buffer_reader::{BufferReader, DecodeError};
use crate::buffer_writer::BufferWriter;
use crate::primitives::KafkaString;
use crate::request::ToBytes;
use crate::wire::{dec_i32, enc_i16, enc_i32};

verus! {

/// `api_key api_version correlation_id client_id`, in front of every
/// request body.
#[derive(Debug, Clone)]
pub struct RequestHeader {
    pub api_key: i16,
    pub api_version: i16,
    pub correlation_id: i32,
    pub client_id: KafkaString,
}

impl RequestHeader {
    pub fn new(api_key: i16, api_version: i16, correlation_id: i32, client_id: Vec<u8>) -> (r:
        Self)
        requires
            client_id@.len() <= i16::MAX,
        ensures
            r.api_key == api_key,
            r.api_version == api_version,
            r.correlation_id == correlation_id,
            r.client_id.0@ == client_id@,
            r.wf(),
    {
        Self { api_key, api_version, correlation_id, client_id: KafkaString(client_id) }
    }
}

impl ToBytes for RequestHeader {
    open spec fn wf(&self) -> bool {
        self.client_id.wf()
    }

    open spec fn spec_bytes(&self) -> Seq<u8> {
        enc_i16(self.api_key) + enc_i16(self.api_version) + enc_i32(self.correlation_id)
            + self.client_id.spec_bytes()
    }

    fn get_in_bytes(&self) -> (r: Vec<u8>) {
        let mut w = BufferWriter::new();
        w.write_int16(self.api_key);
        w.write_int16(self.api_version);
        w.write_int32(self.correlation_id);
        self.client_id.write_to_buffer(&mut w);
        w.buffer
    }
}

/// The four-byte correlation id in front of every response body.
#[derive(Debug)]
pub struct ResponseHeader {
    pub correlation_id: i32,
}

impl ResponseHeader {
    pub fn new(correlation_id: i32) -> (r: Self)
        ensures
            r.correlation_id == correlation_id,
    {
        Self { correlation_id }
    }

    pub fn get_from_bytes(reader: &mut BufferReader) -> (r: Result<Self, DecodeError>)
        requires
            old(reader).wf(),
        ensures
            final(reader).wf(),
            final(reader).buffer@ == old(reader).buffer@,
            match dec_i32(old(reader).buffer@, old(reader).pos as int) {
                Option::Some((v, j)) => r matches Result::Ok(h) && h.correlation_id == v
                    && final(reader).pos == j,
                Option::None => r matches Result::Err(e) && e == DecodeError && final(reader).pos
                    == old(reader).pos,
            },
    {
        match reader.read_int32() {
            Result::Err(e) => Result::Err(e),
            Result::Ok(v) => Result::Ok(Self { correlation_id: v }),
        }
    }
}

} // verus!
