//! Metadata (key 3, version 6): broker list, and per-topic partition
//! leadership.

use vstd::prelude::*;
use crate::buffer_reader::{BufferReader, DecodeError};
use crate::buffer_writer::BufferWriter;
use crate::primitives::KafkaString;
use crate::request::{enc_array, write_array, ToBytes};
use crate::response::{dec_array, read_array, views_of, FromBytes};
use crate::wire::{dec_bool, dec_i16, dec_i32, dec_i32_array, dec_nullable_string, dec_string,
    enc_bool};

verus! {

/// `[topics] allow_auto_topic_creation`.  An empty topic list asks for
/// every topic, and is written as count 0, not -1.
pub struct MetadataRequest {
    pub topics: Vec<KafkaString>,
    pub allow_auto_topic_creation: bool,
}

impl MetadataRequest {
    pub fn new(topics: Vec<KafkaString>) -> (r: Self)
        ensures
            r.topics@ == topics@,
            r.allow_auto_topic_creation == false,
    {
        Self { topics, allow_auto_topic_creation: false }
    }
}

impl ToBytes for MetadataRequest {
    open spec fn wf(&self) -> bool {
        &&& self.topics@.len() <= i32::MAX
        &&& forall|k: int| 0 <= k < self.topics@.len() ==> (#[trigger] self.topics@[k]).wf()
    }

    open spec fn spec_bytes(&self) -> Seq<u8> {
        enc_array(self.topics@) + enc_bool(self.allow_auto_topic_creation)
    }

    fn get_in_bytes(&self) -> (r: Vec<u8>) {
        let mut w = BufferWriter::new();
        write_array(&mut w, &self.topics);
        w.write_bool(self.allow_auto_topic_creation);
        w.buffer
    }
}

/// `node_id host port rack`.
#[derive(Debug)]
pub struct BrokerMetadataResponse {
    pub node_id: i32,
    pub host: Vec<u8>,
    pub port: i32,
    pub rack: Option<Vec<u8>>,
}

/// The abstract model of a `BrokerMetadataResponse`.
pub struct BrokerMetadataResponseV {
    pub node_id: i32,
    pub host: Seq<u8>,
    pub port: i32,
    pub rack: Option<Seq<u8>>,
}

impl FromBytes for BrokerMetadataResponse {
    type V = BrokerMetadataResponseV;

    open spec fn view_of(self) -> BrokerMetadataResponseV {
        BrokerMetadataResponseV {
            node_id: self.node_id,
            host: self.host@,
            port: self.port,
            rack: match self.rack {
                Option::None => Option::None,
                Option::Some(b) => Option::Some(b@),
            },
        }
    }

    open spec fn spec_dec(s: Seq<u8>, i: int) -> Option<(BrokerMetadataResponseV, int)> {
        match dec_i32(s, i) {
            Option::None => Option::None,
            Option::Some((node_id, j)) => match dec_string(s, j) {
                Option::None => Option::None,
                Option::Some((host, k)) => match dec_i32(s, k) {
                    Option::None => Option::None,
                    Option::Some((port, m)) => match dec_nullable_string(s, m) {
                        Option::None => Option::None,
                        Option::Some((rack, e)) => Option::Some(
                            (BrokerMetadataResponseV { node_id, host, port, rack }, e),
                        ),
                    },
                },
            },
        }
    }

    fn get_from_bytes(reader: &mut BufferReader) -> (r: Result<Self, DecodeError>) {
        let pos0 = reader.pos;
        let node_id = match reader.read_int32() {
            Result::Ok(v) => v,
            Result::Err(e) => {
                return Result::Err(e);
            },
        };
        let host = match reader.read_str() {
            Result::Ok(v) => v,
            Result::Err(e) => {
                reader.pos = pos0;
                return Result::Err(e);
            },
        };
        let port = match reader.read_int32() {
            Result::Ok(v) => v,
            Result::Err(e) => {
                reader.pos = pos0;
                return Result::Err(e);
            },
        };
        let rack = match reader.read_nullable_str() {
            Result::Ok(v) => v,
            Result::Err(e) => {
                reader.pos = pos0;
                return Result::Err(e);
            },
        };
        Result::Ok(BrokerMetadataResponse { node_id, host, port, rack })
    }
}

/// `error_code partition_index leader_id [replica_nodes] [isr_nodes]
/// [offline_replicas]`.
#[derive(Debug)]
pub struct PartitionMetadataResponse {
    pub error_code: i16,
    pub partition_index: i32,
    pub leader_id: i32,
    pub replica_nodes: Vec<i32>,
    pub isr_nodes: Vec<i32>,
    pub offline_replicas: Vec<i32>,
}

/// The abstract model of a `PartitionMetadataResponse`.
pub struct PartitionMetadataResponseV {
    pub error_code: i16,
    pub partition_index: i32,
    pub leader_id: i32,
    pub replica_nodes: Seq<i32>,
    pub isr_nodes: Seq<i32>,
    pub offline_replicas: Seq<i32>,
}

impl FromBytes for PartitionMetadataResponse {
    type V = PartitionMetadataResponseV;

    open spec fn view_of(self) -> PartitionMetadataResponseV {
        PartitionMetadataResponseV {
            error_code: self.error_code,
            partition_index: self.partition_index,
            leader_id: self.leader_id,
            replica_nodes: self.replica_nodes@,
            isr_nodes: self.isr_nodes@,
            offline_replicas: self.offline_replicas@,
        }
    }

    open spec fn spec_dec(s: Seq<u8>, i: int) -> Option<(PartitionMetadataResponseV, int)> {
        match dec_i16(s, i) {
            Option::None => Option::None,
            Option::Some((error_code, j1)) => match dec_i32(s, j1) {
                Option::None => Option::None,
                Option::Some((partition_index, j2)) => match dec_i32(s, j2) {
                    Option::None => Option::None,
                    Option::Some((leader_id, j3)) => match dec_i32_array(s, j3) {
                        Option::None => Option::None,
                        Option::Some((replica_nodes, j4)) => match dec_i32_array(s, j4) {
                            Option::None => Option::None,
                            Option::Some((isr_nodes, j5)) => match dec_i32_array(s, j5) {
                                Option::None => Option::None,
                                Option::Some((offline_replicas, j6)) => Option::Some(
                                    (
                                        PartitionMetadataResponseV {
                                            error_code,
                                            partition_index,
                                            leader_id,
                                            replica_nodes,
                                            isr_nodes,
                                            offline_replicas,
                                        },
                                        j6,
                                    ),
                                ),
                            },
                        },
                    },
                },
            },
        }
    }

    fn get_from_bytes(reader: &mut BufferReader) -> (r: Result<Self, DecodeError>) {
        let pos0 = reader.pos;
        let error_code = match reader.read_int16() {
            Result::Ok(v) => v,
            Result::Err(e) => {
                return Result::Err(e);
            },
        };
        let partition_index = match reader.read_int32() {
            Result::Ok(v) => v,
            Result::Err(e) => {
                reader.pos = pos0;
                return Result::Err(e);
            },
        };
        let leader_id = match reader.read_int32() {
            Result::Ok(v) => v,
            Result::Err(e) => {
                reader.pos = pos0;
                return Result::Err(e);
            },
        };
        let replica_nodes = match reader.read_array_int() {
            Result::Ok(v) => v,
            Result::Err(e) => {
                reader.pos = pos0;
                return Result::Err(e);
            },
        };
        let isr_nodes = match reader.read_array_int() {
            Result::Ok(v) => v,
            Result::Err(e) => {
                reader.pos = pos0;
                return Result::Err(e);
            },
        };
        let offline_replicas = match reader.read_array_int() {
            Result::Ok(v) => v,
            Result::Err(e) => {
                reader.pos = pos0;
                return Result::Err(e);
            },
        };
        Result::Ok(
            PartitionMetadataResponse {
                error_code,
                partition_index,
                leader_id,
                replica_nodes,
                isr_nodes,
                offline_replicas,
            },
        )
    }
}

/// `error_code name is_internal [partitions]`.
#[derive(Debug)]
pub struct TopicMetadataResponse {
    pub error_code: i16,
    pub name: Vec<u8>,
    pub is_internal: bool,
    pub partitions: Vec<PartitionMetadataResponse>,
}

/// The abstract model of a `TopicMetadataResponse`.
pub struct TopicMetadataResponseV {
    pub error_code: i16,
    pub name: Seq<u8>,
    pub is_internal: bool,
    pub partitions: Seq<PartitionMetadataResponseV>,
}

impl FromBytes for TopicMetadataResponse {
    type V = TopicMetadataResponseV;

    open spec fn view_of(self) -> TopicMetadataResponseV {
        TopicMetadataResponseV {
            error_code: self.error_code,
            name: self.name@,
            is_internal: self.is_internal,
            partitions: views_of(self.partitions@),
        }
    }

    open spec fn spec_dec(s: Seq<u8>, i: int) -> Option<(TopicMetadataResponseV, int)> {
        match dec_i16(s, i) {
            Option::None => Option::None,
            Option::Some((error_code, j1)) => match dec_string(s, j1) {
                Option::None => Option::None,
                Option::Some((name, j2)) => match dec_bool(s, j2) {
                    Option::None => Option::None,
                    Option::Some((is_internal, j3)) => match dec_array::<
                        PartitionMetadataResponse,
                    >(s, j3) {
                        Option::None => Option::None,
                        Option::Some((partitions, j4)) => Option::Some(
                            (
                                TopicMetadataResponseV {
                                    error_code,
                                    name,
                                    is_internal,
                                    partitions,
                                },
                                j4,
                            ),
                        ),
                    },
                },
            },
        }
    }

    fn get_from_bytes(reader: &mut BufferReader) -> (r: Result<Self, DecodeError>) {
        let pos0 = reader.pos;
        let error_code = match reader.read_int16() {
            Result::Ok(v) => v,
            Result::Err(e) => {
                return Result::Err(e);
            },
        };
        let name = match reader.read_str() {
            Result::Ok(v) => v,
            Result::Err(e) => {
                reader.pos = pos0;
                return Result::Err(e);
            },
        };
        let is_internal = match reader.read_bool() {
            Result::Ok(v) => v,
            Result::Err(e) => {
                reader.pos = pos0;
                return Result::Err(e);
            },
        };
        let partitions = match read_array::<PartitionMetadataResponse>(reader) {
            Result::Ok(v) => v,
            Result::Err(e) => {
                reader.pos = pos0;
                return Result::Err(e);
            },
        };
        Result::Ok(TopicMetadataResponse { error_code, name, is_internal, partitions })
    }
}

/// `throttle_time_ms [brokers] cluster_id controller_id [topics]`.
#[derive(Debug)]
pub struct MetadataResponse {
    pub throttle_time_ms: i32,
    pub brokers: Vec<BrokerMetadataResponse>,
    pub cluster_id: Option<Vec<u8>>,
    pub controller_id: i32,
    pub topics: Vec<TopicMetadataResponse>,
}

/// The abstract model of a `MetadataResponse`.
pub struct MetadataResponseV {
    pub throttle_time_ms: i32,
    pub brokers: Seq<BrokerMetadataResponseV>,
    pub cluster_id: Option<Seq<u8>>,
    pub controller_id: i32,
    pub topics: Seq<TopicMetadataResponseV>,
}

impl FromBytes for MetadataResponse {
    type V = MetadataResponseV;

    open spec fn view_of(self) -> MetadataResponseV {
        MetadataResponseV {
            throttle_time_ms: self.throttle_time_ms,
            brokers: views_of(self.brokers@),
            cluster_id: match self.cluster_id {
                Option::None => Option::None,
                Option::Some(b) => Option::Some(b@),
            },
            controller_id: self.controller_id,
            topics: views_of(self.topics@),
        }
    }

    open spec fn spec_dec(s: Seq<u8>, i: int) -> Option<(MetadataResponseV, int)> {
        match dec_i32(s, i) {
            Option::None => Option::None,
            Option::Some((throttle_time_ms, j1)) => match dec_array::<BrokerMetadataResponse>(
                s,
                j1,
            ) {
                Option::None => Option::None,
                Option::Some((brokers, j2)) => match dec_nullable_string(s, j2) {
                    Option::None => Option::None,
                    Option::Some((cluster_id, j3)) => match dec_i32(s, j3) {
                        Option::None => Option::None,
                        Option::Some((controller_id, j4)) => match dec_array::<
                            TopicMetadataResponse,
                        >(s, j4) {
                            Option::None => Option::None,
                            Option::Some((topics, j5)) => Option::Some(
                                (
                                    MetadataResponseV {
                                        throttle_time_ms,
                                        brokers,
                                        cluster_id,
                                        controller_id,
                                        topics,
                                    },
                                    j5,
                                ),
                            ),
                        },
                    },
                },
            },
        }
    }

    fn get_from_bytes(reader: &mut BufferReader) -> (r: Result<Self, DecodeError>) {
        let pos0 = reader.pos;
        let throttle_time_ms = match reader.read_int32() {
            Result::Ok(v) => v,
            Result::Err(e) => {
                return Result::Err(e);
            },
        };
        let brokers = match read_array::<BrokerMetadataResponse>(reader) {
            Result::Ok(v) => v,
            Result::Err(e) => {
                reader.pos = pos0;
                return Result::Err(e);
            },
        };
        let cluster_id = match reader.read_nullable_str() {
            Result::Ok(v) => v,
            Result::Err(e) => {
                reader.pos = pos0;
                return Result::Err(e);
            },
        };
        let controller_id = match reader.read_int32() {
            Result::Ok(v) => v,
            Result::Err(e) => {
                reader.pos = pos0;
                return Result::Err(e);
            },
        };
        let topics = match read_array::<TopicMetadataResponse>(reader) {
            Result::Ok(v) => v,
            Result::Err(e) => {
                reader.pos = pos0;
                return Result::Err(e);
            },
        };
        Result::Ok(
            MetadataResponse { throttle_time_ms, brokers, cluster_id, controller_id, topics },
        )
    }
}

} // verus!
