//! OffsetCommit (key 8, version 6): record a group's consumed offsets.

use vstd::prelude::*;
use crate::buffer_reader::{BufferReader, DecodeError};
use crate::buffer_writer::BufferWriter;
use crate::primitives::{KafkaNullableString, KafkaString};
use crate::request::{enc_array, write_array, ToBytes};
use crate::response::{dec_array, read_array, views_of, FromBytes};
use crate::wire::{dec_i16, dec_i32, dec_string, enc_i32, enc_i64};

verus! {

/// `partition_index committed_offset committed_leader_epoch
/// committed_metadata`.
#[derive(Debug)]
pub struct PartitionRequest {
    pub partition_index: i32,
    pub committed_offset: i64,
    pub committed_leader_epoch: i32,
    pub committed_metadata: KafkaNullableString,
}

impl ToBytes for PartitionRequest {
    open spec fn wf(&self) -> bool {
        self.committed_metadata.wf()
    }

    open spec fn spec_bytes(&self) -> Seq<u8> {
        enc_i32(self.partition_index) + enc_i64(self.committed_offset) + enc_i32(
            self.committed_leader_epoch,
        ) + self.committed_metadata.spec_bytes()
    }

    fn get_in_bytes(&self) -> (r: Vec<u8>) {
        let mut w = BufferWriter::new();
        w.write_int32(self.partition_index);
        w.write_int64(self.committed_offset);
        w.write_int32(self.committed_leader_epoch);
        self.committed_metadata.write_to_buffer(&mut w);
        w.buffer
    }
}

/// `name [partitions]`.
#[derive(Debug)]
pub struct TopicRequest {
    pub name: KafkaString,
    pub partitions: Vec<PartitionRequest>,
}

impl ToBytes for TopicRequest {
    open spec fn wf(&self) -> bool {
        &&& self.name.wf()
        &&& self.partitions@.len() <= i32::MAX
        &&& forall|k: int| 0 <= k < self.partitions@.len() ==> (
        #[trigger] self.partitions@[k]).wf()
    }

    open spec fn spec_bytes(&self) -> Seq<u8> {
        self.name.spec_bytes() + enc_array(self.partitions@)
    }

    fn get_in_bytes(&self) -> (r: Vec<u8>) {
        let mut w = BufferWriter::new();
        self.name.write_to_buffer(&mut w);
        write_array(&mut w, &self.partitions);
        w.buffer
    }
}

/// `group_id generation_id member_id [topics]`.
pub struct CommitOffsetRequest {
    pub group_id: KafkaString,
    pub generation_id: i32,
    pub member_id: KafkaString,
    pub topics: Vec<TopicRequest>,
}

impl CommitOffsetRequest {
    /// A commit of `committed_offset` for one partition of one topic, on
    /// behalf of `group_id`.
    pub fn new(group_id: Vec<u8>, topic: Vec<u8>, partition_index: i32, committed_offset: i64) -> (r:
        Self)
        requires
            group_id@.len() <= i16::MAX,
            topic@.len() <= i16::MAX,
        ensures
            r.group_id.0@ == group_id@,
            r.generation_id == 1,
            r.member_id.0@ == group_id@,
            r.topics@.len() == 1,
            r.topics@[0].name.0@ == topic@,
            r.topics@[0].partitions@.len() == 1,
            r.topics@[0].partitions@[0].partition_index == partition_index,
            r.topics@[0].partitions@[0].committed_offset == committed_offset,
            r.topics@[0].partitions@[0].committed_leader_epoch == 0,
            r.topics@[0].partitions@[0].committed_metadata.0 matches Option::Some(b) && b@
                == Seq::<u8>::empty(),
            r.wf(),
    {
        let member_id = KafkaString(group_id.clone());
        let partition = PartitionRequest {
            partition_index,
            committed_offset,
            committed_leader_epoch: 0,
            committed_metadata: KafkaNullableString(Option::Some(Vec::new())),
        };
        let mut partitions: Vec<PartitionRequest> = Vec::new();
        partitions.push(partition);
        let topic_entry = TopicRequest { name: KafkaString(topic), partitions };
        let mut topics: Vec<TopicRequest> = Vec::new();
        topics.push(topic_entry);
        Self { group_id: KafkaString(group_id), generation_id: 1, member_id, topics }
    }
}

impl ToBytes for CommitOffsetRequest {
    open spec fn wf(&self) -> bool {
        &&& self.group_id.wf()
        &&& self.member_id.wf()
        &&& self.topics@.len() <= i32::MAX
        &&& forall|k: int| 0 <= k < self.topics@.len() ==> (#[trigger] self.topics@[k]).wf()
    }

    open spec fn spec_bytes(&self) -> Seq<u8> {
        self.group_id.spec_bytes() + enc_i32(self.generation_id) + self.member_id.spec_bytes()
            + enc_array(self.topics@)
    }

    fn get_in_bytes(&self) -> (r: Vec<u8>) {
        let mut w = BufferWriter::new();
        self.group_id.write_to_buffer(&mut w);
        w.write_int32(self.generation_id);
        self.member_id.write_to_buffer(&mut w);
        write_array(&mut w, &self.topics);
        w.buffer
    }
}

/// `partition_index error_code`.
#[derive(Debug, PartialEq, Eq, Structural, Clone, Copy)]
pub struct PartitionResponse {
    pub partition_index: i32,
    pub error_code: i16,
}

impl FromBytes for PartitionResponse {
    type V = PartitionResponse;

    open spec fn view_of(self) -> PartitionResponse {
        self
    }

    open spec fn spec_dec(s: Seq<u8>, i: int) -> Option<(PartitionResponse, int)> {
        match dec_i32(s, i) {
            Option::None => Option::None,
            Option::Some((partition_index, j)) => match dec_i16(s, j) {
                Option::None => Option::None,
                Option::Some((error_code, k)) => Option::Some(
                    (PartitionResponse { partition_index, error_code }, k),
                ),
            },
        }
    }

    fn get_from_bytes(reader: &mut BufferReader) -> (r: Result<Self, DecodeError>) {
        let pos0 = reader.pos;
        let partition_index = match reader.read_int32() {
            Result::Ok(v) => v,
            Result::Err(e) => {
                return Result::Err(e);
            },
        };
        let error_code = match reader.read_int16() {
            Result::Ok(v) => v,
            Result::Err(e) => {
                reader.pos = pos0;
                return Result::Err(e);
            },
        };
        Result::Ok(PartitionResponse { partition_index, error_code })
    }
}

/// `name [partitions]`.
#[derive(Debug)]
pub struct TopicResponse {
    pub name: Vec<u8>,
    pub partitions: Vec<PartitionResponse>,
}

/// The abstract model of a `TopicResponse`.
pub struct TopicResponseV {
    pub name: Seq<u8>,
    pub partitions: Seq<PartitionResponse>,
}

impl FromBytes for TopicResponse {
    type V = TopicResponseV;

    open spec fn view_of(self) -> TopicResponseV {
        TopicResponseV { name: self.name@, partitions: views_of(self.partitions@) }
    }

    open spec fn spec_dec(s: Seq<u8>, i: int) -> Option<(TopicResponseV, int)> {
        match dec_string(s, i) {
            Option::None => Option::None,
            Option::Some((name, j)) => match dec_array::<PartitionResponse>(s, j) {
                Option::None => Option::None,
                Option::Some((partitions, k)) => Option::Some(
                    (TopicResponseV { name, partitions }, k),
                ),
            },
        }
    }

    fn get_from_bytes(reader: &mut BufferReader) -> (r: Result<Self, DecodeError>) {
        let pos0 = reader.pos;
        let name = match reader.read_str() {
            Result::Ok(v) => v,
            Result::Err(e) => {
                return Result::Err(e);
            },
        };
        let partitions = match read_array::<PartitionResponse>(reader) {
            Result::Ok(v) => v,
            Result::Err(e) => {
                reader.pos = pos0;
                return Result::Err(e);
            },
        };
        Result::Ok(TopicResponse { name, partitions })
    }
}

/// `throttle_time_ms [topics]`.
#[derive(Debug)]
pub struct CommitOffsetResponse {
    pub throttle_time_ms: i32,
    pub topics: Vec<TopicResponse>,
}

/// The abstract model of a `CommitOffsetResponse`.
pub struct CommitOffsetResponseV {
    pub throttle_time_ms: i32,
    pub topics: Seq<TopicResponseV>,
}

impl FromBytes for CommitOffsetResponse {
    type V = CommitOffsetResponseV;

    open spec fn view_of(self) -> CommitOffsetResponseV {
        CommitOffsetResponseV {
            throttle_time_ms: self.throttle_time_ms,
            topics: views_of(self.topics@),
        }
    }

    open spec fn spec_dec(s: Seq<u8>, i: int) -> Option<(CommitOffsetResponseV, int)> {
        match dec_i32(s, i) {
            Option::None => Option::None,
            Option::Some((throttle_time_ms, j)) => match dec_array::<TopicResponse>(s, j) {
                Option::None => Option::None,
                Option::Some((topics, k)) => Option::Some(
                    (CommitOffsetResponseV { throttle_time_ms, topics }, k),
                ),
            },
        }
    }

    fn get_from_bytes(reader: &mut BufferReader) -> (r: Result<Self, DecodeError>) {
        let pos0 = reader.pos;
        let throttle_time_ms = match reader.read_int32() {
            Result::Ok(v) => v,
            Result::Err(e) => {
                return Result::Err(e);
            },
        };
        let topics = match read_array::<TopicResponse>(reader) {
            Result::Ok(v) => v,
            Result::Err(e) => {
                reader.pos = pos0;
                return Result::Err(e);
            },
        };
        Result::Ok(CommitOffsetResponse { throttle_time_ms, topics })
    }
}

} // verus!
