//! Produce (key 0, version 6): write records to a partition.

use vstd::prelude::*;
use crate::buffer_reader::{BufferReader, DecodeError};
use crate::buffer_writer::BufferWriter;
use crate::primitives::{KafkaNullableString, KafkaString};
use crate::record::{Record, RecordBatch};
use crate::request::{enc_array, enc_elems, write_array, ToBytes};
use crate::response::{dec_array, read_array, views_of, FromBytes};
use crate::wire::{dec_i16, dec_i32, dec_i64, dec_string, enc_bytes, enc_i16, enc_i32};

verus! {

/// The record batches of one partition, each framed as `bytes`.
pub open spec fn enc_record_sets(batches: Seq<RecordBatch>) -> Seq<u8>
    decreases batches.len(),
{
    if batches.len() == 0 {
        Seq::<u8>::empty()
    } else {
        enc_bytes(batches[0].spec_bytes()) + enc_record_sets(batches.skip(1))
    }
}

/// `partition record_set`.
pub struct ProduceDataRequest {
    pub partition: i32,
    pub record_batches: Vec<RecordBatch>,
}

impl ToBytes for ProduceDataRequest {
    open spec fn wf(&self) -> bool {
        &&& forall|k: int| 0 <= k < self.record_batches@.len() ==> (
        #[trigger] self.record_batches@[k]).wf() && self.record_batches@[k].spec_bytes().len()
            <= i32::MAX
    }

    open spec fn spec_bytes(&self) -> Seq<u8> {
        enc_i32(self.partition) + enc_record_sets(self.record_batches@)
    }

    fn get_in_bytes(&self) -> (r: Vec<u8>) {
        let mut w = BufferWriter::new();
        w.write_int32(self.partition);
        let ghost s0 = w.buffer@;
        let mut k: usize = 0;
        proof {
            assert(self.record_batches@.skip(0) =~= self.record_batches@);
            assert(w.buffer@ + enc_record_sets(self.record_batches@.skip(0)) =~= s0
                + enc_record_sets(self.record_batches@));
        }
        while k < self.record_batches.len()
            invariant
                k <= self.record_batches@.len(),
                forall|x: int| 0 <= x < self.record_batches@.len() ==> (
                #[trigger] self.record_batches@[x]).wf()
                    && self.record_batches@[x].spec_bytes().len() <= i32::MAX,
                w.buffer@ + enc_record_sets(self.record_batches@.skip(k as int)) == s0
                    + enc_record_sets(self.record_batches@),
            decreases self.record_batches@.len() - k,
        {
            let batch_bytes = self.record_batches[k].get_in_bytes();
            w.write_bytes(&batch_bytes);
            k = k + 1;
            proof {
                let prev = self.record_batches@.skip(k - 1 as int);
                assert(prev[0] == self.record_batches@[k - 1]);
                assert(prev.skip(1) =~= self.record_batches@.skip(k as int));
                assert(w.buffer@ + enc_record_sets(self.record_batches@.skip(k as int)) =~= s0
                    + enc_record_sets(self.record_batches@));
            }
        }
        proof {
            assert(enc_record_sets(self.record_batches@.skip(k as int)) =~= Seq::<u8>::empty());
            assert(w.buffer@ =~= w.buffer@ + enc_record_sets(
                self.record_batches@.skip(k as int),
            ));
            assert(w.buffer@ =~= s0 + enc_record_sets(self.record_batches@));
        }
        w.buffer
    }
}

/// `topic [data]`.
pub struct ProduceTopicDataRequest {
    pub topic: KafkaString,
    pub data: Vec<ProduceDataRequest>,
}

impl ToBytes for ProduceTopicDataRequest {
    open spec fn wf(&self) -> bool {
        &&& self.topic.wf()
        &&& self.data@.len() <= i32::MAX
        &&& forall|k: int| 0 <= k < self.data@.len() ==> (#[trigger] self.data@[k]).wf()
    }

    open spec fn spec_bytes(&self) -> Seq<u8> {
        self.topic.spec_bytes() + enc_array(self.data@)
    }

    fn get_in_bytes(&self) -> (r: Vec<u8>) {
        let mut w = BufferWriter::new();
        self.topic.write_to_buffer(&mut w);
        write_array(&mut w, &self.data);
        w.buffer
    }
}

/// `transactional_id acks timeout [topic_data]`.
pub struct ProduceRequest {
    pub transactional_id: KafkaNullableString,
    pub acks: i16,
    pub timeout: i32,
    pub topic_data: Vec<ProduceTopicDataRequest>,
}

impl ProduceRequest {
    /// One record with `key` and `value`, in one batch, for partition 0
    /// of `topic`.
    pub fn new(topic: Vec<u8>, key: Vec<u8>, value: Vec<u8>) -> (r: Self)
        requires
            topic@.len() <= i16::MAX,
            key@.len() + value@.len() + 200 <= i32::MAX,
        ensures
            r.wf(),
            r.acks == 0,
            r.timeout == 5000,
            r.topic_data@.len() == 1,
            r.topic_data@[0].topic.0@ == topic@,
            r.topic_data@[0].data@.len() == 1,
            r.topic_data@[0].data@[0].partition == 0,
            r.topic_data@[0].data@[0].record_batches@.len() == 1,
            r.topic_data@[0].data@[0].record_batches@[0].wf(),
            r.topic_data@[0].data@[0].record_batches@[0].records@.len() == 1,
            r.topic_data@[0].data@[0].record_batches@[0].records@[0].key.0@ == key@,
            r.topic_data@[0].data@[0].record_batches@[0].records@[0].value.0@ == value@,
    {
        let record = Record::new(key, value);
        let mut records: Vec<Record> = Vec::new();
        records.push(record);
        proof {
            assert(records@.skip(1) =~= Seq::<Record>::empty());
            assert(enc_elems(records@) == records@[0].spec_bytes() + enc_elems(records@.skip(1)));
            assert(enc_elems(records@.skip(1)) =~= Seq::<u8>::empty());
            assert(enc_elems(records@) =~= records@[0].spec_bytes());
        }
        let batch = RecordBatch::new(records);
        let mut record_batches: Vec<RecordBatch> = Vec::new();
        record_batches.push(batch);
        let data = ProduceDataRequest { partition: 0, record_batches };
        let mut datas: Vec<ProduceDataRequest> = Vec::new();
        datas.push(data);
        let mut topic_data: Vec<ProduceTopicDataRequest> = Vec::new();
        topic_data.push(ProduceTopicDataRequest { topic: KafkaString(topic), data: datas });
        let mut tid: Vec<u8> = Vec::new();
        tid.push(107);
        tid.push(106);
        tid.push(104);
        Self {
            transactional_id: KafkaNullableString(Option::Some(tid)),
            acks: 0,
            timeout: 5000,
            topic_data,
        }
    }
}

impl ToBytes for ProduceRequest {
    open spec fn wf(&self) -> bool {
        &&& self.transactional_id.wf()
        &&& self.topic_data@.len() <= i32::MAX
        &&& forall|k: int| 0 <= k < self.topic_data@.len() ==> (
        #[trigger] self.topic_data@[k]).wf()
    }

    open spec fn spec_bytes(&self) -> Seq<u8> {
        self.transactional_id.spec_bytes() + enc_i16(self.acks) + enc_i32(self.timeout)
            + enc_array(self.topic_data@)
    }

    fn get_in_bytes(&self) -> (r: Vec<u8>) {
        let mut w = BufferWriter::new();
        self.transactional_id.write_to_buffer(&mut w);
        w.write_int16(self.acks);
        w.write_int32(self.timeout);
        write_array(&mut w, &self.topic_data);
        w.buffer
    }
}

/// `partition error_code base_offset log_append_time log_start_offset`.
#[derive(Debug, PartialEq, Eq, Structural, Clone, Copy)]
pub struct PartitionResponse {
    pub partition: i32,
    pub error_code: i16,
    pub base_offset: i64,
    pub log_append_time: i64,
    pub log_start_offset: i64,
}

impl FromBytes for PartitionResponse {
    type V = PartitionResponse;

    open spec fn view_of(self) -> PartitionResponse {
        self
    }

    open spec fn spec_dec(s: Seq<u8>, i: int) -> Option<(PartitionResponse, int)> {
        match dec_i32(s, i) {
            Option::None => Option::None,
            Option::Some((partition, j1)) => match dec_i16(s, j1) {
                Option::None => Option::None,
                Option::Some((error_code, j2)) => match dec_i64(s, j2) {
                    Option::None => Option::None,
                    Option::Some((base_offset, j3)) => match dec_i64(s, j3) {
                        Option::None => Option::None,
                        Option::Some((log_append_time, j4)) => match dec_i64(s, j4) {
                            Option::None => Option::None,
                            Option::Some((log_start_offset, j5)) => Option::Some(
                                (
                                    PartitionResponse {
                                        partition,
                                        error_code,
                                        base_offset,
                                        log_append_time,
                                        log_start_offset,
                                    },
                                    j5,
                                ),
                            ),
                        },
                    },
                },
            },
        }
    }

    fn get_from_bytes(reader: &mut BufferReader) -> (r: Result<Self, DecodeError>) {
        let pos0 = reader.pos;
        let partition = match reader.read_int32() {
            Result::Ok(v) => v,
            Result::Err(e) => {
                return Result::Err(e);
            },
        };
        let error_code = match reader.read_int16() {
            Result::Ok(v) => v,
            Result::Err(e) => {
                reader.pos = pos0;
                return Result::Err(e);
            },
        };
        let base_offset = match reader.read_int64() {
            Result::Ok(v) => v,
            Result::Err(e) => {
                reader.pos = pos0;
                return Result::Err(e);
            },
        };
        let log_append_time = match reader.read_int64() {
            Result::Ok(v) => v,
            Result::Err(e) => {
                reader.pos = pos0;
                return Result::Err(e);
            },
        };
        let log_start_offset = match reader.read_int64() {
            Result::Ok(v) => v,
            Result::Err(e) => {
                reader.pos = pos0;
                return Result::Err(e);
            },
        };
        Result::Ok(
            PartitionResponse {
                partition,
                error_code,
                base_offset,
                log_append_time,
                log_start_offset,
            },
        )
    }
}

/// `topic [partition_responses]`.
#[derive(Debug)]
pub struct TopicResponse {
    pub topic: Vec<u8>,
    pub partition_responses: Vec<PartitionResponse>,
}

/// The abstract model of a produce `TopicResponse`.
pub struct TopicResponseV {
    pub topic: Seq<u8>,
    pub partition_responses: Seq<PartitionResponse>,
}

impl FromBytes for TopicResponse {
    type V = TopicResponseV;

    open spec fn view_of(self) -> TopicResponseV {
        TopicResponseV {
            topic: self.topic@,
            partition_responses: views_of(self.partition_responses@),
        }
    }

    open spec fn spec_dec(s: Seq<u8>, i: int) -> Option<(TopicResponseV, int)> {
        match dec_string(s, i) {
            Option::None => Option::None,
            Option::Some((topic, j)) => match dec_array::<PartitionResponse>(s, j) {
                Option::None => Option::None,
                Option::Some((partition_responses, k)) => Option::Some(
                    (TopicResponseV { topic, partition_responses }, k),
                ),
            },
        }
    }

    fn get_from_bytes(reader: &mut BufferReader) -> (r: Result<Self, DecodeError>) {
        let pos0 = reader.pos;
        let topic = match reader.read_str() {
            Result::Ok(v) => v,
            Result::Err(e) => {
                return Result::Err(e);
            },
        };
        let partition_responses = match read_array::<PartitionResponse>(reader) {
            Result::Ok(v) => v,
            Result::Err(e) => {
                reader.pos = pos0;
                return Result::Err(e);
            },
        };
        Result::Ok(TopicResponse { topic, partition_responses })
    }
}

/// `[responses] throttle_time_ms`.
#[derive(Debug)]
pub struct ProduceResponse {
    pub responses: Vec<TopicResponse>,
    pub throttle_time_ms: i32,
}

/// The abstract model of a `ProduceResponse`.
pub struct ProduceResponseV {
    pub responses: Seq<TopicResponseV>,
    pub throttle_time_ms: i32,
}

impl FromBytes for ProduceResponse {
    type V = ProduceResponseV;

    open spec fn view_of(self) -> ProduceResponseV {
        ProduceResponseV {
            responses: views_of(self.responses@),
            throttle_time_ms: self.throttle_time_ms,
        }
    }

    open spec fn spec_dec(s: Seq<u8>, i: int) -> Option<(ProduceResponseV, int)> {
        match dec_array::<TopicResponse>(s, i) {
            Option::None => Option::None,
            Option::Some((responses, j)) => match dec_i32(s, j) {
                Option::None => Option::None,
                Option::Some((throttle_time_ms, k)) => Option::Some(
                    (ProduceResponseV { responses, throttle_time_ms }, k),
                ),
            },
        }
    }

    fn get_from_bytes(reader: &mut BufferReader) -> (r: Result<Self, DecodeError>) {
        let pos0 = reader.pos;
        let responses = match read_array::<TopicResponse>(reader) {
            Result::Ok(v) => v,
            Result::Err(e) => {
                return Result::Err(e);
            },
        };
        let throttle_time_ms = match reader.read_int32() {
            Result::Ok(v) => v,
            Result::Err(e) => {
                reader.pos = pos0;
                return Result::Err(e);
            },
        };
        Result::Ok(ProduceResponse { responses, throttle_time_ms })
    }
}

} // verus!
