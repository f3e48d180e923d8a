//! Fetch (key 1, version 8): read records from partitions.

use vstd::prelude::*;
use crate::buffer_reader::{BufferReader, DecodeError};
use crate::buffer_writer::BufferWriter;
use crate::primitives::KafkaString;
use crate::record::{RecordBatch, RecordBatchV};
use crate::request::{enc_array, write_array, ToBytes};
use crate::response::{dec_array, dec_until, read_array, read_until, views_of, FromBytes};
use crate::wire::{dec_i16, dec_i32, dec_i64, dec_string, enc_i32, enc_i32_array, enc_i64,
    enc_i8};

verus! {

/// `partition fetch_offset log_start_offset partition_max_bytes`.
#[derive(Debug)]
pub struct PartitionFetchRequest {
    pub partition: i32,
    pub fetch_offset: i64,
    pub log_start_offset: i64,
    pub partition_max_bytes: i32,
}

impl ToBytes for PartitionFetchRequest {
    open spec fn wf(&self) -> bool {
        true
    }

    open spec fn spec_bytes(&self) -> Seq<u8> {
        enc_i32(self.partition) + enc_i64(self.fetch_offset) + enc_i64(self.log_start_offset)
            + enc_i32(self.partition_max_bytes)
    }

    fn get_in_bytes(&self) -> (r: Vec<u8>) {
        let mut w = BufferWriter::new();
        w.write_int32(self.partition);
        w.write_int64(self.fetch_offset);
        w.write_int64(self.log_start_offset);
        w.write_int32(self.partition_max_bytes);
        w.buffer
    }
}

/// `topic [partitions]`.
#[derive(Debug)]
pub struct TopicRequest {
    pub topic: KafkaString,
    pub partitions: Vec<PartitionFetchRequest>,
}

impl ToBytes for TopicRequest {
    open spec fn wf(&self) -> bool {
        self.topic.wf() && self.partitions@.len() <= i32::MAX
    }

    open spec fn spec_bytes(&self) -> Seq<u8> {
        self.topic.spec_bytes() + enc_array(self.partitions@)
    }

    fn get_in_bytes(&self) -> (r: Vec<u8>) {
        let mut w = BufferWriter::new();
        self.topic.write_to_buffer(&mut w);
        write_array(&mut w, &self.partitions);
        w.buffer
    }
}

/// `topic [partitions]`, for partitions dropped from a fetch session.
#[derive(Debug)]
pub struct ForgottenTopics {
    pub topic: KafkaString,
    pub partitions: Vec<i32>,
}

impl ToBytes for ForgottenTopics {
    open spec fn wf(&self) -> bool {
        self.topic.wf() && self.partitions@.len() <= i32::MAX
    }

    open spec fn spec_bytes(&self) -> Seq<u8> {
        self.topic.spec_bytes() + enc_i32_array(self.partitions@)
    }

    fn get_in_bytes(&self) -> (r: Vec<u8>) {
        let mut w = BufferWriter::new();
        self.topic.write_to_buffer(&mut w);
        w.write_array_int(&self.partitions);
        w.buffer
    }
}

/// `replica_id max_wait_ms min_bytes max_bytes isolation_level session_id
/// session_epoch [topics] [forgotten_topics_data]`.
#[derive(Debug)]
pub struct FetchRequest {
    pub replica_id: i32,
    pub max_wait_ms: i32,
    pub min_bytes: i32,
    pub max_bytes: i32,
    pub isolation_level: i8,
    pub session_id: i32,
    pub session_epoch: i32,
    pub topics: Vec<TopicRequest>,
    pub forgotten_topics_data: Vec<ForgottenTopics>,
}

impl FetchRequest {
    /// A consumer fetch over the given topics, each with its partition
    /// list, reading every partition from offset 0.
    pub fn new(partitions_by_topics: Vec<(Vec<u8>, Vec<i32>)>) -> (r: Self)
        requires
            partitions_by_topics@.len() <= i32::MAX,
            forall|k: int| 0 <= k < partitions_by_topics@.len() ==> (
            #[trigger] partitions_by_topics@[k]).0@.len() <= i16::MAX
                && partitions_by_topics@[k].1@.len() <= i32::MAX,
        ensures
            r.replica_id == -1,
            r.max_wait_ms == 5000,
            r.min_bytes == 100000,
            r.max_bytes == 1000000,
            r.isolation_level == 0,
            r.session_id == 0,
            r.session_epoch == 0,
            r.forgotten_topics_data@.len() == 0,
            r.topics@.len() == partitions_by_topics@.len(),
            forall|k: int| 0 <= k < r.topics@.len() ==> (#[trigger] r.topics@[k]).topic.0@
                == partitions_by_topics@[k].0@ && r.topics@[k].partitions@.len()
                == partitions_by_topics@[k].1@.len() && (forall|m: int|
                0 <= m < r.topics@[k].partitions@.len()
                    ==> (#[trigger] r.topics@[k].partitions@[m]).partition
                    == partitions_by_topics@[k].1@[m] && r.topics@[k].partitions@[m].fetch_offset
                    == 0 && r.topics@[k].partitions@[m].log_start_offset == 0
                    && r.topics@[k].partitions@[m].partition_max_bytes == 10000),
    {
        let mut topics: Vec<TopicRequest> = Vec::new();
        let mut k: usize = 0;
        while k < partitions_by_topics.len()
            invariant
                k <= partitions_by_topics@.len(),
                topics@.len() == k,
                forall|x: int| 0 <= x < partitions_by_topics@.len() ==> (
                #[trigger] partitions_by_topics@[x]).0@.len() <= i16::MAX
                    && partitions_by_topics@[x].1@.len() <= i32::MAX,
                forall|x: int| 0 <= x < k ==> (#[trigger] topics@[x]).topic.0@
                    == partitions_by_topics@[x].0@ && topics@[x].partitions@.len()
                    == partitions_by_topics@[x].1@.len() && (forall|m: int|
                    0 <= m < topics@[x].partitions@.len()
                        ==> (#[trigger] topics@[x].partitions@[m]).partition
                        == partitions_by_topics@[x].1@[m]
                        && topics@[x].partitions@[m].fetch_offset == 0
                        && topics@[x].partitions@[m].log_start_offset == 0
                        && topics@[x].partitions@[m].partition_max_bytes == 10000),
            decreases partitions_by_topics@.len() - k,
        {
            let topic_name = partitions_by_topics[k].0.clone();
            let mut partitions: Vec<PartitionFetchRequest> = Vec::new();
            let mut m: usize = 0;
            let n = partitions_by_topics[k].1.len();
            while m < n
                invariant
                    k < partitions_by_topics@.len(),
                    n == partitions_by_topics@[k as int].1@.len(),
                    m <= n,
                    partitions@.len() == m,
                    forall|x: int| 0 <= x < m ==> (#[trigger] partitions@[x]).partition
                        == partitions_by_topics@[k as int].1@[x] && partitions@[x].fetch_offset
                        == 0 && partitions@[x].log_start_offset == 0
                        && partitions@[x].partition_max_bytes == 10000,
                decreases n - m,
            {
                let partition = partitions_by_topics[k].1[m];
                partitions.push(
                    PartitionFetchRequest {
                        partition,
                        fetch_offset: 0,
                        log_start_offset: 0,
                        partition_max_bytes: 10000,
                    },
                );
                m = m + 1;
            }
            topics.push(TopicRequest { topic: KafkaString(topic_name), partitions });
            k = k + 1;
        }
        Self {
            replica_id: -1,
            max_wait_ms: 5000,
            min_bytes: 100000,
            max_bytes: 1000000,
            isolation_level: 0,
            session_id: 0,
            session_epoch: 0,
            topics,
            forgotten_topics_data: Vec::new(),
        }
    }
}

impl ToBytes for FetchRequest {
    open spec fn wf(&self) -> bool {
        &&& self.topics@.len() <= i32::MAX
        &&& forall|k: int| 0 <= k < self.topics@.len() ==> (#[trigger] self.topics@[k]).wf()
        &&& self.forgotten_topics_data@.len() <= i32::MAX
        &&& forall|k: int| 0 <= k < self.forgotten_topics_data@.len() ==> (
        #[trigger] self.forgotten_topics_data@[k]).wf()
    }

    open spec fn spec_bytes(&self) -> Seq<u8> {
        enc_i32(self.replica_id) + enc_i32(self.max_wait_ms) + enc_i32(self.min_bytes) + enc_i32(
            self.max_bytes,
        ) + enc_i8(self.isolation_level) + enc_i32(self.session_id) + enc_i32(self.session_epoch)
            + enc_array(self.topics@) + enc_array(self.forgotten_topics_data@)
    }

    fn get_in_bytes(&self) -> (r: Vec<u8>) {
        let mut w = BufferWriter::new();
        w.write_int32(self.replica_id);
        w.write_int32(self.max_wait_ms);
        w.write_int32(self.min_bytes);
        w.write_int32(self.max_bytes);
        w.write_int8(self.isolation_level);
        w.write_int32(self.session_id);
        w.write_int32(self.session_epoch);
        write_array(&mut w, &self.topics);
        write_array(&mut w, &self.forgotten_topics_data);
        w.buffer
    }
}

/// `producer_id first_offset`.
#[derive(Debug, PartialEq, Eq, Structural, Clone, Copy)]
pub struct AbortedTransactions {
    pub producer_id: i64,
    pub first_offset: i64,
}

impl FromBytes for AbortedTransactions {
    type V = AbortedTransactions;

    open spec fn view_of(self) -> AbortedTransactions {
        self
    }

    open spec fn spec_dec(s: Seq<u8>, i: int) -> Option<(AbortedTransactions, int)> {
        match dec_i64(s, i) {
            Option::None => Option::None,
            Option::Some((producer_id, j)) => match dec_i64(s, j) {
                Option::None => Option::None,
                Option::Some((first_offset, k)) => Option::Some(
                    (AbortedTransactions { producer_id, first_offset }, k),
                ),
            },
        }
    }

    fn get_from_bytes(reader: &mut BufferReader) -> (r: Result<Self, DecodeError>) {
        let pos0 = reader.pos;
        let producer_id = match reader.read_int64() {
            Result::Ok(v) => v,
            Result::Err(e) => {
                return Result::Err(e);
            },
        };
        let first_offset = match reader.read_int64() {
            Result::Ok(v) => v,
            Result::Err(e) => {
                reader.pos = pos0;
                return Result::Err(e);
            },
        };
        Result::Ok(AbortedTransactions { producer_id, first_offset })
    }
}

/// `partition error_code high_watermark last_stable_offset
/// log_start_offset [aborted_transactions] record_set`.
#[derive(Debug)]
pub struct PartitionResponse {
    pub partition: i32,
    pub error_code: i16,
    pub high_watermark: i64,
    pub last_stable_offset: i64,
    pub log_start_offset: i64,
    pub aborted_transactions: Vec<AbortedTransactions>,
    pub records: Vec<RecordBatch>,
}

/// The abstract model of a fetch `PartitionResponse`.
pub struct PartitionResponseV {
    pub partition: i32,
    pub error_code: i16,
    pub high_watermark: i64,
    pub last_stable_offset: i64,
    pub log_start_offset: i64,
    pub aborted_transactions: Seq<AbortedTransactions>,
    pub records: Seq<RecordBatchV>,
}

impl FromBytes for PartitionResponse {
    type V = PartitionResponseV;

    open spec fn view_of(self) -> PartitionResponseV {
        PartitionResponseV {
            partition: self.partition,
            error_code: self.error_code,
            high_watermark: self.high_watermark,
            last_stable_offset: self.last_stable_offset,
            log_start_offset: self.log_start_offset,
            aborted_transactions: views_of(self.aborted_transactions@),
            records: views_of(self.records@),
        }
    }

    open spec fn spec_dec(s: Seq<u8>, i: int) -> Option<(PartitionResponseV, int)> {
        match dec_i32(s, i) {
            Option::None => Option::None,
            Option::Some((partition, j1)) => match dec_i16(s, j1) {
                Option::None => Option::None,
                Option::Some((error_code, j2)) => match dec_i64(s, j2) {
                    Option::None => Option::None,
                    Option::Some((high_watermark, j3)) => match dec_i64(s, j3) {
                        Option::None => Option::None,
                        Option::Some((last_stable_offset, j4)) => match dec_i64(s, j4) {
                            Option::None => Option::None,
                            Option::Some((log_start_offset, j5)) => match dec_array::<
                                AbortedTransactions,
                            >(s, j5) {
                                Option::None => Option::None,
                                Option::Some((aborted_transactions, j6)) => match dec_i32(
                                    s,
                                    j6,
                                ) {
                                    Option::None => Option::None,
                                    Option::Some((records_len, j7)) => if records_len < 0 || j7
                                        + records_len > s.len() {
                                        Option::None
                                    } else {
                                        match dec_until::<RecordBatch>(
                                            s,
                                            j7,
                                            j7 + records_len,
                                        ) {
                                            Option::None => Option::None,
                                            Option::Some((records, j8)) => Option::Some(
                                                (
                                                    PartitionResponseV {
                                                        partition,
                                                        error_code,
                                                        high_watermark,
                                                        last_stable_offset,
                                                        log_start_offset,
                                                        aborted_transactions,
                                                        records,
                                                    },
                                                    j8,
                                                ),
                                            ),
                                        }
                                    },
                                },
                            },
                        },
                    },
                },
            },
        }
    }

    fn get_from_bytes(reader: &mut BufferReader) -> (r: Result<Self, DecodeError>) {
        let pos0 = reader.pos;
        let partition = match reader.read_int32() {
            Result::Ok(v) => v,
            Result::Err(e) => {
                return Result::Err(e);
            },
        };
        let error_code = match reader.read_int16() {
            Result::Ok(v) => v,
            Result::Err(e) => {
                reader.pos = pos0;
                return Result::Err(e);
            },
        };
        let high_watermark = match reader.read_int64() {
            Result::Ok(v) => v,
            Result::Err(e) => {
                reader.pos = pos0;
                return Result::Err(e);
            },
        };
        let last_stable_offset = match reader.read_int64() {
            Result::Ok(v) => v,
            Result::Err(e) => {
                reader.pos = pos0;
                return Result::Err(e);
            },
        };
        let log_start_offset = match reader.read_int64() {
            Result::Ok(v) => v,
            Result::Err(e) => {
                reader.pos = pos0;
                return Result::Err(e);
            },
        };
        let aborted_transactions = match read_array::<AbortedTransactions>(reader) {
            Result::Ok(v) => v,
            Result::Err(e) => {
                reader.pos = pos0;
                return Result::Err(e);
            },
        };
        let records_len = match reader.read_int32() {
            Result::Ok(v) => v,
            Result::Err(e) => {
                reader.pos = pos0;
                return Result::Err(e);
            },
        };
        if records_len < 0 || records_len as usize > reader.buffer.len() - reader.pos {
            reader.pos = pos0;
            return Result::Err(DecodeError);
        }
        let end = reader.pos + records_len as usize;
        let records = match read_until::<RecordBatch>(reader, end) {
            Result::Ok(v) => v,
            Result::Err(e) => {
                reader.pos = pos0;
                return Result::Err(e);
            },
        };
        Result::Ok(
            PartitionResponse {
                partition,
                error_code,
                high_watermark,
                last_stable_offset,
                log_start_offset,
                aborted_transactions,
                records,
            },
        )
    }
}

/// `topic [partition_responses]`.
#[derive(Debug)]
pub struct TopicResponse {
    pub topic: Vec<u8>,
    pub partition_responses: Vec<PartitionResponse>,
}

/// The abstract model of a fetch `TopicResponse`.
pub struct TopicResponseV {
    pub topic: Seq<u8>,
    pub partition_responses: Seq<PartitionResponseV>,
}

impl FromBytes for TopicResponse {
    type V = TopicResponseV;

    open spec fn view_of(self) -> TopicResponseV {
        TopicResponseV {
            topic: self.topic@,
            partition_responses: views_of(self.partition_responses@),
        }
    }

    open spec fn spec_dec(s: Seq<u8>, i: int) -> Option<(TopicResponseV, int)> {
        match dec_string(s, i) {
            Option::None => Option::None,
            Option::Some((topic, j)) => match dec_array::<PartitionResponse>(s, j) {
                Option::None => Option::None,
                Option::Some((partition_responses, k)) => Option::Some(
                    (TopicResponseV { topic, partition_responses }, k),
                ),
            },
        }
    }

    fn get_from_bytes(reader: &mut BufferReader) -> (r: Result<Self, DecodeError>) {
        let pos0 = reader.pos;
        let topic = match reader.read_str() {
            Result::Ok(v) => v,
            Result::Err(e) => {
                return Result::Err(e);
            },
        };
        let partition_responses = match read_array::<PartitionResponse>(reader) {
            Result::Ok(v) => v,
            Result::Err(e) => {
                reader.pos = pos0;
                return Result::Err(e);
            },
        };
        Result::Ok(TopicResponse { topic, partition_responses })
    }
}

/// `throttle_time_ms error_code session_id [responses]`.
#[derive(Debug)]
pub struct FetchResponse {
    pub throttle_time_ms: i32,
    pub error_code: i16,
    pub session_id: i32,
    pub responses: Vec<TopicResponse>,
}

/// The abstract model of a `FetchResponse`.
pub struct FetchResponseV {
    pub throttle_time_ms: i32,
    pub error_code: i16,
    pub session_id: i32,
    pub responses: Seq<TopicResponseV>,
}

impl FetchResponse {
    pub fn new() -> (r: Self)
        ensures
            r.throttle_time_ms == 0,
            r.error_code == 0,
            r.session_id == 0,
            r.responses@ == Seq::<TopicResponse>::empty(),
    {
        Self { throttle_time_ms: 0, error_code: 0, session_id: 0, responses: Vec::new() }
    }

    /// Reads one record batch from the cursor.
    pub fn read_record(reader: &mut BufferReader) -> (r: Result<RecordBatch, DecodeError>)
        requires
            old(reader).wf(),
        ensures
            final(reader).wf(),
            final(reader).buffer@ == old(reader).buffer@,
            match RecordBatch::spec_dec(old(reader).buffer@, old(reader).pos as int) {
                Option::Some((v, j)) => r matches Result::Ok(b) && b.view_of() == v
                    && final(reader).pos == j,
                Option::None => r matches Result::Err(e) && e == DecodeError && final(reader).pos
                    == old(reader).pos,
            },
    {
        RecordBatch::get_from_bytes(reader)
    }
}

impl FromBytes for FetchResponse {
    type V = FetchResponseV;

    open spec fn view_of(self) -> FetchResponseV {
        FetchResponseV {
            throttle_time_ms: self.throttle_time_ms,
            error_code: self.error_code,
            session_id: self.session_id,
            responses: views_of(self.responses@),
        }
    }

    open spec fn spec_dec(s: Seq<u8>, i: int) -> Option<(FetchResponseV, int)> {
        match dec_i32(s, i) {
            Option::None => Option::None,
            Option::Some((throttle_time_ms, j1)) => match dec_i16(s, j1) {
                Option::None => Option::None,
                Option::Some((error_code, j2)) => match dec_i32(s, j2) {
                    Option::None => Option::None,
                    Option::Some((session_id, j3)) => match dec_array::<TopicResponse>(s, j3) {
                        Option::None => Option::None,
                        Option::Some((responses, j4)) => Option::Some(
                            (
                                FetchResponseV {
                                    throttle_time_ms,
                                    error_code,
                                    session_id,
                                    responses,
                                },
                                j4,
                            ),
                        ),
                    },
                },
            },
        }
    }

    fn get_from_bytes(reader: &mut BufferReader) -> (r: Result<Self, DecodeError>) {
        let pos0 = reader.pos;
        let throttle_time_ms = match reader.read_int32() {
            Result::Ok(v) => v,
            Result::Err(e) => {
                return Result::Err(e);
            },
        };
        let error_code = match reader.read_int16() {
            Result::Ok(v) => v,
            Result::Err(e) => {
                reader.pos = pos0;
                return Result::Err(e);
            },
        };
        let session_id = match reader.read_int32() {
            Result::Ok(v) => v,
            Result::Err(e) => {
                reader.pos = pos0;
                return Result::Err(e);
            },
        };
        let responses = match read_array::<TopicResponse>(reader) {
            Result::Ok(v) => v,
            Result::Err(e) => {
                reader.pos = pos0;
                return Result::Err(e);
            },
        };
        Result::Ok(FetchResponse { throttle_time_ms, error_code, session_id, responses })
    }
}

} // verus!
