//! ListOffsets (key 2, version 3): the first and next offsets of
//! partitions.

use vstd::prelude::*;
use crate::buffer_reader::{BufferReader, DecodeError};
use crate::buffer_writer::BufferWriter;
use crate::primitives::KafkaString;
use crate::request::{enc_array, write_array, ToBytes};
use crate::response::{dec_array, read_array, views_of, FromBytes};
use crate::wire::{dec_i16, dec_i32, dec_i64, dec_string, enc_i32, enc_i64, enc_i8};

verus! {

/// `partition_index timestamp`; timestamp -1 asks for the latest offset.
#[derive(Debug)]
pub struct PartitionRequest {
    pub partition_index: i32,
    pub timestamp: i64,
}

impl ToBytes for PartitionRequest {
    open spec fn wf(&self) -> bool {
        true
    }

    open spec fn spec_bytes(&self) -> Seq<u8> {
        enc_i32(self.partition_index) + enc_i64(self.timestamp)
    }

    fn get_in_bytes(&self) -> (r: Vec<u8>) {
        let mut w = BufferWriter::new();
        w.write_int32(self.partition_index);
        w.write_int64(self.timestamp);
        w.buffer
    }
}

/// `name [partitions]`.
#[derive(Debug)]
pub struct TopicRequest {
    pub name: KafkaString,
    pub partitions: Vec<PartitionRequest>,
}

impl ToBytes for TopicRequest {
    open spec fn wf(&self) -> bool {
        self.name.wf() && self.partitions@.len() <= i32::MAX
    }

    open spec fn spec_bytes(&self) -> Seq<u8> {
        self.name.spec_bytes() + enc_array(self.partitions@)
    }

    fn get_in_bytes(&self) -> (r: Vec<u8>) {
        let mut w = BufferWriter::new();
        self.name.write_to_buffer(&mut w);
        write_array(&mut w, &self.partitions);
        w.buffer
    }
}

/// `replica_id isolation_level [topics]`.
pub struct ListOffsetsRequest {
    pub replica_id: i32,
    pub isolation_level: i8,
    pub topics: Vec<TopicRequest>,
}

impl ListOffsetsRequest {
    pub fn new(topics: Vec<TopicRequest>) -> (r: Self)
        ensures
            r.replica_id == -1,
            r.isolation_level == 0,
            r.topics@ == topics@,
    {
        Self { replica_id: -1, isolation_level: 0, topics }
    }
}

impl ToBytes for ListOffsetsRequest {
    open spec fn wf(&self) -> bool {
        &&& self.topics@.len() <= i32::MAX
        &&& forall|k: int| 0 <= k < self.topics@.len() ==> (#[trigger] self.topics@[k]).wf()
    }

    open spec fn spec_bytes(&self) -> Seq<u8> {
        enc_i32(self.replica_id) + enc_i8(self.isolation_level) + enc_array(self.topics@)
    }

    fn get_in_bytes(&self) -> (r: Vec<u8>) {
        let mut w = BufferWriter::new();
        w.write_int32(self.replica_id);
        w.write_int8(self.isolation_level);
        write_array(&mut w, &self.topics);
        w.buffer
    }
}

/// `partition_index error_code timestamp offset`.
#[derive(Debug, PartialEq, Eq, Structural, Clone, Copy)]
pub struct PartitionResponse {
    pub partition_index: i32,
    pub error_code: i16,
    pub timestamp: i64,
    pub offset: i64,
}

impl FromBytes for PartitionResponse {
    type V = PartitionResponse;

    open spec fn view_of(self) -> PartitionResponse {
        self
    }

    open spec fn spec_dec(s: Seq<u8>, i: int) -> Option<(PartitionResponse, int)> {
        match dec_i32(s, i) {
            Option::None => Option::None,
            Option::Some((partition_index, j1)) => match dec_i16(s, j1) {
                Option::None => Option::None,
                Option::Some((error_code, j2)) => match dec_i64(s, j2) {
                    Option::None => Option::None,
                    Option::Some((timestamp, j3)) => match dec_i64(s, j3) {
                        Option::None => Option::None,
                        Option::Some((offset, j4)) => Option::Some(
                            (
                                PartitionResponse {
                                    partition_index,
                                    error_code,
                                    timestamp,
                                    offset,
                                },
                                j4,
                            ),
                        ),
                    },
                },
            },
        }
    }

    fn get_from_bytes(reader: &mut BufferReader) -> (r: Result<Self, DecodeError>) {
        let pos0 = reader.pos;
        let partition_index = match reader.read_int32() {
            Result::Ok(v) => v,
            Result::Err(e) => {
                return Result::Err(e);
            },
        };
        let error_code = match reader.read_int16() {
            Result::Ok(v) => v,
            Result::Err(e) => {
                reader.pos = pos0;
                return Result::Err(e);
            },
        };
        let timestamp = match reader.read_int64() {
            Result::Ok(v) => v,
            Result::Err(e) => {
                reader.pos = pos0;
                return Result::Err(e);
            },
        };
        let offset = match reader.read_int64() {
            Result::Ok(v) => v,
            Result::Err(e) => {
                reader.pos = pos0;
                return Result::Err(e);
            },
        };
        Result::Ok(PartitionResponse { partition_index, error_code, timestamp, offset })
    }
}

/// `name [partitions]`.
#[derive(Debug)]
pub struct TopicResponse {
    pub name: Vec<u8>,
    pub partitions: Vec<PartitionResponse>,
}

/// The abstract model of a `TopicResponse`.
pub struct TopicResponseV {
    pub name: Seq<u8>,
    pub partitions: Seq<PartitionResponse>,
}

impl FromBytes for TopicResponse {
    type V = TopicResponseV;

    open spec fn view_of(self) -> TopicResponseV {
        TopicResponseV { name: self.name@, partitions: views_of(self.partitions@) }
    }

    open spec fn spec_dec(s: Seq<u8>, i: int) -> Option<(TopicResponseV, int)> {
        match dec_string(s, i) {
            Option::None => Option::None,
            Option::Some((name, j)) => match dec_array::<PartitionResponse>(s, j) {
                Option::None => Option::None,
                Option::Some((partitions, k)) => Option::Some(
                    (TopicResponseV { name, partitions }, k),
                ),
            },
        }
    }

    fn get_from_bytes(reader: &mut BufferReader) -> (r: Result<Self, DecodeError>) {
        let pos0 = reader.pos;
        let name = match reader.read_str() {
            Result::Ok(v) => v,
            Result::Err(e) => {
                return Result::Err(e);
            },
        };
        let partitions = match read_array::<PartitionResponse>(reader) {
            Result::Ok(v) => v,
            Result::Err(e) => {
                reader.pos = pos0;
                return Result::Err(e);
            },
        };
        Result::Ok(TopicResponse { name, partitions })
    }
}

/// `throttle_time_ms [topics]`.
#[derive(Debug)]
pub struct ListOffsetsResponse {
    pub throttle_time_ms: i32,
    pub topics: Vec<TopicResponse>,
}

/// The abstract model of a `ListOffsetsResponse`.
pub struct ListOffsetsResponseV {
    pub throttle_time_ms: i32,
    pub topics: Seq<TopicResponseV>,
}

impl FromBytes for ListOffsetsResponse {
    type V = ListOffsetsResponseV;

    open spec fn view_of(self) -> ListOffsetsResponseV {
        ListOffsetsResponseV {
            throttle_time_ms: self.throttle_time_ms,
            topics: views_of(self.topics@),
        }
    }

    open spec fn spec_dec(s: Seq<u8>, i: int) -> Option<(ListOffsetsResponseV, int)> {
        match dec_i32(s, i) {
            Option::None => Option::None,
            Option::Some((throttle_time_ms, j)) => match dec_array::<TopicResponse>(s, j) {
                Option::None => Option::None,
                Option::Some((topics, k)) => Option::Some(
                    (ListOffsetsResponseV { throttle_time_ms, topics }, k),
                ),
            },
        }
    }

    fn get_from_bytes(reader: &mut BufferReader) -> (r: Result<Self, DecodeError>) {
        let pos0 = reader.pos;
        let throttle_time_ms = match reader.read_int32() {
            Result::Ok(v) => v,
            Result::Err(e) => {
                return Result::Err(e);
            },
        };
        let topics = match read_array::<TopicResponse>(reader) {
            Result::Ok(v) => v,
            Result::Err(e) => {
                reader.pos = pos0;
                return Result::Err(e);
            },
        };
        Result::Ok(ListOffsetsResponse { throttle_time_ms, topics })
    }
}

} // verus!
