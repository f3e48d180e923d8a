//! JoinGroup (key 11, version 3): enter a consumer group.
//!
//! Each protocol entry carries its consumer-protocol metadata as a
//! length-prefixed byte blob: `version [topics] user_data`.

use vstd::prelude::*;
use crate::buffer_reader::{BufferReader, DecodeError};
use crate::buffer_writer::BufferWriter;
use crate::primitives::KafkaString;
use crate::request::{enc_array, enc_elems, write_array, ToBytes};
use crate::response::{dec_array, read_array, views_of, FromBytes};
use crate::wire::{dec_bytes, dec_i16, dec_i32, dec_string, enc_bytes, enc_i16, enc_i32};

verus! {

/// The consumer protocol metadata: `version [topics] user_data`.
#[derive(Debug)]
pub struct ProtocolMetadata {
    pub version: i16,
    pub topics: Vec<KafkaString>,
    pub user_data: Vec<u8>,
}

impl ToBytes for ProtocolMetadata {
    open spec fn wf(&self) -> bool {
        &&& self.topics@.len() <= i32::MAX
        &&& forall|k: int| 0 <= k < self.topics@.len() ==> (#[trigger] self.topics@[k]).wf()
        &&& self.user_data@.len() <= i32::MAX
    }

    open spec fn spec_bytes(&self) -> Seq<u8> {
        enc_i16(self.version) + enc_array(self.topics@) + enc_bytes(self.user_data@)
    }

    fn get_in_bytes(&self) -> (r: Vec<u8>) {
        let mut w = BufferWriter::new();
        w.write_int16(self.version);
        write_array(&mut w, &self.topics);
        w.write_bytes(&self.user_data);
        w.buffer
    }
}

/// `name metadata`, with the metadata framed as `bytes`.
#[derive(Debug)]
pub struct Protocol {
    pub name: KafkaString,
    pub metadata: ProtocolMetadata,
}

impl ToBytes for Protocol {
    open spec fn wf(&self) -> bool {
        &&& self.name.wf()
        &&& self.metadata.wf()
        &&& self.metadata.spec_bytes().len() <= i32::MAX
    }

    open spec fn spec_bytes(&self) -> Seq<u8> {
        self.name.spec_bytes() + enc_bytes(self.metadata.spec_bytes())
    }

    fn get_in_bytes(&self) -> (r: Vec<u8>) {
        let mut w = BufferWriter::new();
        self.name.write_to_buffer(&mut w);
        let metadata_bytes = self.metadata.get_in_bytes();
        w.write_bytes(&metadata_bytes);
        w.buffer
    }
}

/// `group_id session_timeout_ms rebalance_timeout_ms member_id
/// protocol_type [protocols]`.
pub struct JoinGroupRequest {
    pub group_id: KafkaString,
    pub session_timeout_ms: i32,
    pub rebalance_timeout_ms: i32,
    pub member_id: KafkaString,
    pub protocol_type: KafkaString,
    pub protocols: Vec<Protocol>,
}

impl JoinGroupRequest {
    /// A first join: empty member id, the "consumer" protocol type, and
    /// one protocol entry subscribing to the topic "test".
    pub fn new(group_id: Vec<u8>) -> (r: Self)
        requires
            group_id@.len() <= i16::MAX,
        ensures
            r.group_id.0@ == group_id@,
            r.session_timeout_ms == 6000,
            r.rebalance_timeout_ms == 6000,
            r.member_id.0@ == Seq::<u8>::empty(),
            r.protocol_type.0@ == seq![99u8, 111u8, 110u8, 115u8, 117u8, 109u8, 101u8, 114u8],
            r.protocols@.len() == 1,
            r.protocols@[0].name.0@ == Seq::<u8>::empty(),
            r.protocols@[0].metadata.version == 3,
            r.protocols@[0].metadata.topics@.len() == 1,
            r.protocols@[0].metadata.topics@[0].0@ == seq![116u8, 101u8, 115u8, 116u8],
            r.protocols@[0].metadata.user_data@ == Seq::<u8>::empty(),
            r.wf(),
    {
        let mut topic: Vec<u8> = Vec::new();
        topic.push(116);
        topic.push(101);
        topic.push(115);
        topic.push(116);
        let mut topics: Vec<KafkaString> = Vec::new();
        topics.push(KafkaString(topic));
        let metadata = ProtocolMetadata { version: 3, topics, user_data: Vec::new() };
        let mut protocols: Vec<Protocol> = Vec::new();
        protocols.push(Protocol { name: KafkaString(Vec::new()), metadata });
        let mut protocol_type: Vec<u8> = Vec::new();
        protocol_type.push(99);
        protocol_type.push(111);
        protocol_type.push(110);
        protocol_type.push(115);
        protocol_type.push(117);
        protocol_type.push(109);
        protocol_type.push(101);
        protocol_type.push(114);
        proof {
            assert(protocol_type@ =~= seq![99u8, 111u8, 110u8, 115u8, 117u8, 109u8, 101u8, 114u8]);
            assert(topic@ =~= seq![116u8, 101u8, 115u8, 116u8]);
            let md = protocols@[0].metadata;
            assert(md.topics@.skip(1) =~= Seq::<KafkaString>::empty());
            assert(enc_elems(md.topics@) == md.topics@[0].spec_bytes() + enc_elems(
                md.topics@.skip(1),
            ));
            assert(enc_elems(md.topics@.skip(1)) =~= Seq::<u8>::empty());
            assert(md.spec_bytes().len() <= 32);
        }
        Self {
            group_id: KafkaString(group_id),
            session_timeout_ms: 6000,
            rebalance_timeout_ms: 6000,
            member_id: KafkaString(Vec::new()),
            protocol_type: KafkaString(protocol_type),
            protocols,
        }
    }
}

impl ToBytes for JoinGroupRequest {
    open spec fn wf(&self) -> bool {
        &&& self.group_id.wf()
        &&& self.member_id.wf()
        &&& self.protocol_type.wf()
        &&& self.protocols@.len() <= i32::MAX
        &&& forall|k: int| 0 <= k < self.protocols@.len() ==> (
        #[trigger] self.protocols@[k]).wf()
    }

    open spec fn spec_bytes(&self) -> Seq<u8> {
        self.group_id.spec_bytes() + enc_i32(self.session_timeout_ms) + enc_i32(
            self.rebalance_timeout_ms,
        ) + self.member_id.spec_bytes() + self.protocol_type.spec_bytes() + enc_array(
            self.protocols@,
        )
    }

    fn get_in_bytes(&self) -> (r: Vec<u8>) {
        let mut w = BufferWriter::new();
        self.group_id.write_to_buffer(&mut w);
        w.write_int32(self.session_timeout_ms);
        w.write_int32(self.rebalance_timeout_ms);
        self.member_id.write_to_buffer(&mut w);
        self.protocol_type.write_to_buffer(&mut w);
        write_array(&mut w, &self.protocols);
        w.buffer
    }
}

/// `member_id metadata`.
#[derive(Debug)]
pub struct Member {
    pub member_id: Vec<u8>,
    pub metadata: Vec<u8>,
}

/// The abstract model of a `Member`.
pub struct MemberV {
    pub member_id: Seq<u8>,
    pub metadata: Seq<u8>,
}

impl FromBytes for Member {
    type V = MemberV;

    open spec fn view_of(self) -> MemberV {
        MemberV { member_id: self.member_id@, metadata: self.metadata@ }
    }

    open spec fn spec_dec(s: Seq<u8>, i: int) -> Option<(MemberV, int)> {
        match dec_string(s, i) {
            Option::None => Option::None,
            Option::Some((member_id, j)) => match dec_bytes(s, j) {
                Option::None => Option::None,
                Option::Some((metadata, k)) => Option::Some((MemberV { member_id, metadata }, k)),
            },
        }
    }

    fn get_from_bytes(reader: &mut BufferReader) -> (r: Result<Self, DecodeError>) {
        let pos0 = reader.pos;
        let member_id = match reader.read_str() {
            Result::Ok(v) => v,
            Result::Err(e) => {
                return Result::Err(e);
            },
        };
        let metadata = match reader.read_bytes() {
            Result::Ok(v) => v,
            Result::Err(e) => {
                reader.pos = pos0;
                return Result::Err(e);
            },
        };
        Result::Ok(Member { member_id, metadata })
    }
}

/// `throttle_time_ms error_code generation_id protocol_name leader
/// member_id [members]`.
#[derive(Debug)]
pub struct JoinGroupResponse {
    pub throttle_time_ms: i32,
    pub error_code: i16,
    pub generation_id: i32,
    pub protocol_name: Vec<u8>,
    pub leader: Vec<u8>,
    pub member_id: Vec<u8>,
    pub members: Vec<Member>,
}

/// The abstract model of a `JoinGroupResponse`.
pub struct JoinGroupResponseV {
    pub throttle_time_ms: i32,
    pub error_code: i16,
    pub generation_id: i32,
    pub protocol_name: Seq<u8>,
    pub leader: Seq<u8>,
    pub member_id: Seq<u8>,
    pub members: Seq<MemberV>,
}

impl FromBytes for JoinGroupResponse {
    type V = JoinGroupResponseV;

    open spec fn view_of(self) -> JoinGroupResponseV {
        JoinGroupResponseV {
            throttle_time_ms: self.throttle_time_ms,
            error_code: self.error_code,
            generation_id: self.generation_id,
            protocol_name: self.protocol_name@,
            leader: self.leader@,
            member_id: self.member_id@,
            members: views_of(self.members@),
        }
    }

    open spec fn spec_dec(s: Seq<u8>, i: int) -> Option<(JoinGroupResponseV, int)> {
        match dec_i32(s, i) {
            Option::None => Option::None,
            Option::Some((throttle_time_ms, j1)) => match dec_i16(s, j1) {
                Option::None => Option::None,
                Option::Some((error_code, j2)) => match dec_i32(s, j2) {
                    Option::None => Option::None,
                    Option::Some((generation_id, j3)) => match dec_string(s, j3) {
                        Option::None => Option::None,
                        Option::Some((protocol_name, j4)) => match dec_string(s, j4) {
                            Option::None => Option::None,
                            Option::Some((leader, j5)) => match dec_string(s, j5) {
                                Option::None => Option::None,
                                Option::Some((member_id, j6)) => match dec_array::<Member>(
                                    s,
                                    j6,
                                ) {
                                    Option::None => Option::None,
                                    Option::Some((members, j7)) => Option::Some(
                                        (
                                            JoinGroupResponseV {
                                                throttle_time_ms,
                                                error_code,
                                                generation_id,
                                                protocol_name,
                                                leader,
                                                member_id,
                                                members,
                                            },
                                            j7,
                                        ),
                                    ),
                                },
                            },
                        },
                    },
                },
            },
        }
    }

    fn get_from_bytes(reader: &mut BufferReader) -> (r: Result<Self, DecodeError>) {
        let pos0 = reader.pos;
        let throttle_time_ms = match reader.read_int32() {
            Result::Ok(v) => v,
            Result::Err(e) => {
                return Result::Err(e);
            },
        };
        let error_code = match reader.read_int16() {
            Result::Ok(v) => v,
            Result::Err(e) => {
                reader.pos = pos0;
                return Result::Err(e);
            },
        };
        let generation_id = match reader.read_int32() {
            Result::Ok(v) => v,
            Result::Err(e) => {
                reader.pos = pos0;
                return Result::Err(e);
            },
        };
        let protocol_name = match reader.read_str() {
            Result::Ok(v) => v,
            Result::Err(e) => {
                reader.pos = pos0;
                return Result::Err(e);
            },
        };
        let leader = match reader.read_str() {
            Result::Ok(v) => v,
            Result::Err(e) => {
                reader.pos = pos0;
                return Result::Err(e);
            },
        };
        let member_id = match reader.read_str() {
            Result::Ok(v) => v,
            Result::Err(e) => {
                reader.pos = pos0;
                return Result::Err(e);
            },
        };
        let members = match read_array::<Member>(reader) {
            Result::Ok(v) => v,
            Result::Err(e) => {
                reader.pos = pos0;
                return Result::Err(e);
            },
        };
        Result::Ok(
            JoinGroupResponse {
                throttle_time_ms,
                error_code,
                generation_id,
                protocol_name,
                leader,
                member_id,
                members,
            },
        )
    }
}

} // verus!
