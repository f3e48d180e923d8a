//! FindCoordinator (key 10, version 2): which broker coordinates a group.

use vstd::prelude::*;
use crate::buffer_reader::{BufferReader, DecodeError};
use crate::buffer_writer::BufferWriter;
use crate::primitives::KafkaString;
use crate::request::ToBytes;
use crate::response::FromBytes;
use crate::wire::{dec_i16, dec_i32, dec_nullable_string, dec_string, enc_i8};

verus! {

/// `key key_type`; key type 0 asks for a group coordinator.
#[derive(Debug)]
pub struct FindCoordinatorRequest {
    pub key: KafkaString,
    pub key_type: i8,
}

impl FindCoordinatorRequest {
    pub fn new() -> (r: Self)
        ensures
            r.key.0@ == Seq::<u8>::empty(),
            r.key_type == 0,
    {
        Self { key: KafkaString(Vec::new()), key_type: 0 }
    }
}

impl ToBytes for FindCoordinatorRequest {
    open spec fn wf(&self) -> bool {
        self.key.wf()
    }

    open spec fn spec_bytes(&self) -> Seq<u8> {
        self.key.spec_bytes() + enc_i8(self.key_type)
    }

    fn get_in_bytes(&self) -> (r: Vec<u8>) {
        let mut w = BufferWriter::new();
        self.key.write_to_buffer(&mut w);
        w.write_int8(self.key_type);
        w.buffer
    }
}

/// `throttle_time_ms error_code error_message node_id host port`.
#[derive(Debug)]
pub struct FindCoordinatorResponse {
    pub throttle_time_ms: i32,
    pub error_code: i16,
    pub error_message: Option<Vec<u8>>,
    pub node_id: i32,
    pub host: Vec<u8>,
    pub port: i32,
}

/// The abstract model of a `FindCoordinatorResponse`.
pub struct FindCoordinatorResponseV {
    pub throttle_time_ms: i32,
    pub error_code: i16,
    pub error_message: Option<Seq<u8>>,
    pub node_id: i32,
    pub host: Seq<u8>,
    pub port: i32,
}

impl FromBytes for FindCoordinatorResponse {
    type V = FindCoordinatorResponseV;

    open spec fn view_of(self) -> FindCoordinatorResponseV {
        FindCoordinatorResponseV {
            throttle_time_ms: self.throttle_time_ms,
            error_code: self.error_code,
            error_message: match self.error_message {
                Option::None => Option::None,
                Option::Some(b) => Option::Some(b@),
            },
            node_id: self.node_id,
            host: self.host@,
            port: self.port,
        }
    }

    open spec fn spec_dec(s: Seq<u8>, i: int) -> Option<(FindCoordinatorResponseV, int)> {
        match dec_i32(s, i) {
            Option::None => Option::None,
            Option::Some((throttle_time_ms, j1)) => match dec_i16(s, j1) {
                Option::None => Option::None,
                Option::Some((error_code, j2)) => match dec_nullable_string(s, j2) {
                    Option::None => Option::None,
                    Option::Some((error_message, j3)) => match dec_i32(s, j3) {
                        Option::None => Option::None,
                        Option::Some((node_id, j4)) => match dec_string(s, j4) {
                            Option::None => Option::None,
                            Option::Some((host, j5)) => match dec_i32(s, j5) {
                                Option::None => Option::None,
                                Option::Some((port, j6)) => Option::Some(
                                    (
                                        FindCoordinatorResponseV {
                                            throttle_time_ms,
                                            error_code,
                                            error_message,
                                            node_id,
                                            host,
                                            port,
                                        },
                                        j6,
                                    ),
                                ),
                            },
                        },
                    },
                },
            },
        }
    }

    fn get_from_bytes(reader: &mut BufferReader) -> (r: Result<Self, DecodeError>) {
        let pos0 = reader.pos;
        let throttle_time_ms = match reader.read_int32() {
            Result::Ok(v) => v,
            Result::Err(e) => {
                return Result::Err(e);
            },
        };
        let error_code = match reader.read_int16() {
            Result::Ok(v) => v,
            Result::Err(e) => {
                reader.pos = pos0;
                return Result::Err(e);
            },
        };
        let error_message = match reader.read_nullable_str() {
            Result::Ok(v) => v,
            Result::Err(e) => {
                reader.pos = pos0;
                return Result::Err(e);
            },
        };
        let node_id = match reader.read_int32() {
            Result::Ok(v) => v,
            Result::Err(e) => {
                reader.pos = pos0;
                return Result::Err(e);
            },
        };
        let host = match reader.read_str() {
            Result::Ok(v) => v,
            Result::Err(e) => {
                reader.pos = pos0;
                return Result::Err(e);
            },
        };
        let port = match reader.read_int32() {
            Result::Ok(v) => v,
            Result::Err(e) => {
                reader.pos = pos0;
                return Result::Err(e);
            },
        };
        Result::Ok(
            FindCoordinatorResponse {
                throttle_time_ms,
                error_code,
                error_message,
                node_id,
                host,
                port,
            },
        )
    }
}

} // verus!
