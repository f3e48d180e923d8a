//! CreateTopics (key 19, version 3): create one topic per request.

use vstd::prelude::*;
use crate::buffer_reader::{BufferReader, DecodeError};
use crate::buffer_writer::BufferWriter;
use crate::primitives::{KafkaNullableString, KafkaString};
use crate::request::{enc_array, write_array, ToBytes};
use crate::response::{dec_array, read_array, views_of, FromBytes};
use crate::wire::{dec_i16, dec_i32, dec_nullable_string, dec_string, enc_bool, enc_i16, enc_i32,
    enc_i32_array};

verus! {

/// The broker-side wait bound, in milliseconds.
pub const TIMEOUT: i32 = 5000;

/// One topic per request.
pub const TOPICS_LENGTH: i32 = 1;

/// A manual partition-to-broker assignment.
#[derive(Debug)]
pub struct Assignment {
    pub partition_index: i32,
    pub broker_ids: Vec<i32>,
}

impl ToBytes for Assignment {
    open spec fn wf(&self) -> bool {
        self.broker_ids@.len() <= i32::MAX
    }

    open spec fn spec_bytes(&self) -> Seq<u8> {
        enc_i32(self.partition_index) + enc_i32_array(self.broker_ids@)
    }

    fn get_in_bytes(&self) -> (r: Vec<u8>) {
        let mut w = BufferWriter::new();
        w.write_int32(self.partition_index);
        w.write_array_int(&self.broker_ids);
        w.buffer
    }
}

/// A topic configuration entry.
#[derive(Debug)]
pub struct Config {
    pub name: KafkaString,
    pub value: KafkaNullableString,
}

impl ToBytes for Config {
    open spec fn wf(&self) -> bool {
        self.name.wf() && self.value.wf()
    }

    open spec fn spec_bytes(&self) -> Seq<u8> {
        self.name.spec_bytes() + self.value.spec_bytes()
    }

    fn get_in_bytes(&self) -> (r: Vec<u8>) {
        let mut w = BufferWriter::new();
        self.name.write_to_buffer(&mut w);
        self.value.write_to_buffer(&mut w);
        w.buffer
    }
}

/// `name num_partitions replication_factor [assignments] [configs]`.
#[derive(Debug)]
pub struct TopicRequest {
    pub name: KafkaString,
    pub num_partitions: i32,
    pub replication_factor: i16,
    pub assignments: Vec<Assignment>,
    pub configs: Vec<Config>,
}

impl TopicRequest {
    pub fn new(name: Vec<u8>, num_partitions: i32, replication_factor: i16) -> (r: Self)
        requires
            name@.len() <= i16::MAX,
        ensures
            r.name.0@ == name@,
            r.num_partitions == num_partitions,
            r.replication_factor == replication_factor,
            r.assignments@ == Seq::<Assignment>::empty(),
            r.configs@ == Seq::<Config>::empty(),
    {
        Self {
            name: KafkaString(name),
            num_partitions,
            replication_factor,
            assignments: Vec::new(),
            configs: Vec::new(),
        }
    }
}

impl ToBytes for TopicRequest {
    open spec fn wf(&self) -> bool {
        &&& self.name.wf()
        &&& self.assignments@.len() <= i32::MAX
        &&& forall|k: int| 0 <= k < self.assignments@.len() ==> (
        #[trigger] self.assignments@[k]).wf()
        &&& self.configs@.len() <= i32::MAX
        &&& forall|k: int| 0 <= k < self.configs@.len() ==> (#[trigger] self.configs@[k]).wf()
    }

    open spec fn spec_bytes(&self) -> Seq<u8> {
        self.name.spec_bytes() + enc_i32(self.num_partitions) + enc_i16(self.replication_factor)
            + enc_array(self.assignments@) + enc_array(self.configs@)
    }

    fn get_in_bytes(&self) -> (r: Vec<u8>) {
        let mut w = BufferWriter::new();
        self.name.write_to_buffer(&mut w);
        w.write_int32(self.num_partitions);
        w.write_int16(self.replication_factor);
        write_array(&mut w, &self.assignments);
        write_array(&mut w, &self.configs);
        w.buffer
    }
}

/// `[topics] timeout_ms validate_only`, with a single topic.
#[derive(Debug)]
pub struct CreateTopicRequest {
    pub topic: TopicRequest,
    pub timeout_ms: i32,
    pub validate_only: bool,
}

impl CreateTopicRequest {
    pub fn new(topic: Vec<u8>, num_partitions: i32, replication_factor: i16) -> (r: Self)
        requires
            topic@.len() <= i16::MAX,
        ensures
            r.topic.name.0@ == topic@,
            r.topic.num_partitions == num_partitions,
            r.topic.replication_factor == replication_factor,
            r.topic.assignments@.len() == 0,
            r.topic.configs@.len() == 0,
            r.timeout_ms == TIMEOUT,
            r.validate_only == false,
    {
        Self {
            topic: TopicRequest::new(topic, num_partitions, replication_factor),
            timeout_ms: TIMEOUT,
            validate_only: false,
        }
    }
}

impl ToBytes for CreateTopicRequest {
    open spec fn wf(&self) -> bool {
        self.topic.wf()
    }

    open spec fn spec_bytes(&self) -> Seq<u8> {
        enc_i32(TOPICS_LENGTH) + self.topic.spec_bytes() + enc_i32(self.timeout_ms) + enc_bool(
            self.validate_only,
        )
    }

    fn get_in_bytes(&self) -> (r: Vec<u8>) {
        let mut w = BufferWriter::new();
        w.write_int32(TOPICS_LENGTH);
        let topic_bytes = self.topic.get_in_bytes();
        w.write_raw(&topic_bytes);
        w.write_int32(self.timeout_ms);
        w.write_bool(self.validate_only);
        w.buffer
    }
}

/// `name error_code error_message`, for one created topic.
#[derive(Debug)]
pub struct TopicResponse {
    pub name: Vec<u8>,
    pub error_code: i16,
    pub error_message: Option<Vec<u8>>,
}

/// The abstract model of a created-topic entry.
pub struct TopicResponseV {
    pub name: Seq<u8>,
    pub error_code: i16,
    pub error_message: Option<Seq<u8>>,
}

impl FromBytes for TopicResponse {
    type V = TopicResponseV;

    open spec fn view_of(self) -> TopicResponseV {
        TopicResponseV {
            name: self.name@,
            error_code: self.error_code,
            error_message: match self.error_message {
                Option::None => Option::None,
                Option::Some(b) => Option::Some(b@),
            },
        }
    }

    open spec fn spec_dec(s: Seq<u8>, i: int) -> Option<(TopicResponseV, int)> {
        match dec_string(s, i) {
            Option::None => Option::None,
            Option::Some((name, j)) => match dec_i16(s, j) {
                Option::None => Option::None,
                Option::Some((error_code, k)) => match dec_nullable_string(s, k) {
                    Option::None => Option::None,
                    Option::Some((error_message, m)) => Option::Some(
                        (TopicResponseV { name, error_code, error_message }, m),
                    ),
                },
            },
        }
    }

    fn get_from_bytes(reader: &mut BufferReader) -> (r: Result<Self, DecodeError>) {
        let pos0 = reader.pos;
        let name = match reader.read_str() {
            Result::Ok(v) => v,
            Result::Err(e) => {
                return Result::Err(e);
            },
        };
        let error_code = match reader.read_int16() {
            Result::Ok(v) => v,
            Result::Err(e) => {
                reader.pos = pos0;
                return Result::Err(e);
            },
        };
        let error_message = match reader.read_nullable_str() {
            Result::Ok(v) => v,
            Result::Err(e) => {
                reader.pos = pos0;
                return Result::Err(e);
            },
        };
        Result::Ok(TopicResponse { name, error_code, error_message })
    }
}

/// `throttle_time_ms [topics]`.
#[derive(Debug)]
pub struct CreateTopicResponse {
    pub throttle_time_ms: i32,
    pub topics: Vec<TopicResponse>,
}

impl CreateTopicResponse {
    pub fn new() -> (r: Self)
        ensures
            r.throttle_time_ms == 0,
            r.topics@ == Seq::<TopicResponse>::empty(),
    {
        Self { throttle_time_ms: 0, topics: Vec::new() }
    }
}

/// The abstract model of a `CreateTopicResponse`.
pub struct CreateTopicResponseV {
    pub throttle_time_ms: i32,
    pub topics: Seq<TopicResponseV>,
}

impl FromBytes for CreateTopicResponse {
    type V = CreateTopicResponseV;

    open spec fn view_of(self) -> CreateTopicResponseV {
        CreateTopicResponseV {
            throttle_time_ms: self.throttle_time_ms,
            topics: views_of(self.topics@),
        }
    }

    open spec fn spec_dec(s: Seq<u8>, i: int) -> Option<(CreateTopicResponseV, int)> {
        match dec_i32(s, i) {
            Option::None => Option::None,
            Option::Some((throttle_time_ms, j)) => match dec_array::<TopicResponse>(s, j) {
                Option::None => Option::None,
                Option::Some((topics, k)) => Option::Some(
                    (CreateTopicResponseV { throttle_time_ms, topics }, k),
                ),
            },
        }
    }

    fn get_from_bytes(reader: &mut BufferReader) -> (r: Result<Self, DecodeError>) {
        let pos0 = reader.pos;
        let throttle_time_ms = match reader.read_int32() {
            Result::Ok(v) => v,
            Result::Err(e) => {
                return Result::Err(e);
            },
        };
        let topics = match read_array::<TopicResponse>(reader) {
            Result::Ok(v) => v,
            Result::Err(e) => {
                reader.pos = pos0;
                return Result::Err(e);
            },
        };
        Result::Ok(CreateTopicResponse { throttle_time_ms, topics })
    }
}

} // verus!
