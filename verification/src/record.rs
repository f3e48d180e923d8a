//! The record batch format carried inside Produce requests and Fetch
//! responses.
//!
//! A batch is the fixed prefix fields, then the byte length of the records
//! region, then the records.  `batch_length` counts every byte from
//! `partition_leader_epoch` to the end of the batch, and `crc` is CRC-32C
//! over the bytes from `attributes` to the end; both are computed, never
//! guessed.

use vstd::prelude::*;
use crate::buffer_reader::{BufferReader, DecodeError};
use crate::buffer_writer::BufferWriter;
use crate::crc32c::{crc32c, crc32c_compute};
use crate::primitives::{KafkaValue, VarInt};
use crate::request::{enc_elems, write_elems, ToBytes};
use crate::response::{dec_elems, dec_until, read_elems, read_until, views_of, FromBytes};
use crate::wire::{dec_i16, dec_i32, dec_i64, dec_i8, dec_varint, dec_varlen_bytes, enc_i16,
    enc_i32, enc_i64, enc_i8, enc_varint, enc_varlen_bytes, lemma_dec_enc_i8,
    lemma_concat_prefix, lemma_dec_enc_i16, lemma_dec_enc_i32, lemma_dec_enc_i64,
    lemma_dec_enc_varint, lemma_dec_enc_varlen_bytes, lemma_enc_varint_len,
    lemma_enc_varlen_bytes_len};

verus! {

/// `key value`, each as varint-length bytes.
#[derive(Debug, Clone)]
pub struct RecordHeader {
    pub header_key_length: VarInt,
    pub header_key: KafkaValue,
    pub header_value_length: VarInt,
    pub header_value: KafkaValue,
}

/// The abstract model of a `RecordHeader`.
pub struct RecordHeaderV {
    pub header_key_length: i32,
    pub header_key: Seq<u8>,
    pub header_value_length: i32,
    pub header_value: Seq<u8>,
}

impl RecordHeader {
    /// The single `{"app": "rust"}` header every produced record carries.
    pub fn new() -> (r: Vec<RecordHeader>)
        ensures
            r@.len() == 1,
            r@[0].wf(),
            r@[0].header_key.0@ == seq![97u8, 112u8, 112u8],
            r@[0].header_value.0@ == seq![114u8, 117u8, 115u8, 116u8],
            r@[0].spec_bytes().len() <= 17,
    {
        let mut key: Vec<u8> = Vec::new();
        key.push(97);
        key.push(112);
        key.push(112);
        let mut value: Vec<u8> = Vec::new();
        value.push(114);
        value.push(117);
        value.push(115);
        value.push(116);
        proof {
            assert(key@ =~= seq![97u8, 112u8, 112u8]);
            assert(value@ =~= seq![114u8, 117u8, 115u8, 116u8]);
            lemma_enc_varlen_bytes_len(key@);
            lemma_enc_varlen_bytes_len(value@);
        }
        let header = RecordHeader {
            header_key_length: VarInt(3),
            header_key: KafkaValue(key),
            header_value_length: VarInt(4),
            header_value: KafkaValue(value),
        };
        let mut out: Vec<RecordHeader> = Vec::new();
        out.push(header);
        out
    }
}

impl ToBytes for RecordHeader {
    open spec fn wf(&self) -> bool {
        &&& self.header_key.wf()
        &&& self.header_value.wf()
        &&& self.header_key_length.0 == self.header_key.0@.len()
        &&& self.header_value_length.0 == self.header_value.0@.len()
    }

    open spec fn spec_bytes(&self) -> Seq<u8> {
        self.header_key.spec_bytes() + self.header_value.spec_bytes()
    }

    fn get_in_bytes(&self) -> (r: Vec<u8>) {
        let mut w = BufferWriter::new();
        self.header_key.write_to_buffer(&mut w);
        self.header_value.write_to_buffer(&mut w);
        w.buffer
    }
}

impl FromBytes for RecordHeader {
    type V = RecordHeaderV;

    open spec fn view_of(self) -> RecordHeaderV {
        RecordHeaderV {
            header_key_length: self.header_key_length.0,
            header_key: self.header_key.0@,
            header_value_length: self.header_value_length.0,
            header_value: self.header_value.0@,
        }
    }

    open spec fn spec_dec(s: Seq<u8>, i: int) -> Option<(RecordHeaderV, int)> {
        match dec_varlen_bytes(s, i) {
            Option::None => Option::None,
            Option::Some((key, j)) => match dec_varlen_bytes(s, j) {
                Option::None => Option::None,
                Option::Some((value, k)) => Option::Some(
                    (
                        RecordHeaderV {
                            header_key_length: key.len() as i32,
                            header_key: key,
                            header_value_length: value.len() as i32,
                            header_value: value,
                        },
                        k,
                    ),
                ),
            },
        }
    }

    fn get_from_bytes(reader: &mut BufferReader) -> (r: Result<Self, DecodeError>) {
        let pos0 = reader.pos;
        let header_key = match KafkaValue::read_from_buffer(reader) {
            Result::Ok(v) => v,
            Result::Err(e) => {
                return Result::Err(e);
            },
        };
        let header_value = match KafkaValue::read_from_buffer(reader) {
            Result::Ok(v) => v,
            Result::Err(e) => {
                reader.pos = pos0;
                return Result::Err(e);
            },
        };
        let header_key_length = VarInt(header_key.0.len() as i32);
        let header_value_length = VarInt(header_value.0.len() as i32);
        Result::Ok(
            RecordHeader { header_key_length, header_key, header_value_length, header_value },
        )
    }
}

/// One record: varint length, then attributes, deltas, key, value, and
/// headers.
#[derive(Debug, Clone)]
pub struct Record {
    pub length: VarInt,
    pub attributes: i8,
    pub timestamp_delta: VarInt,
    pub offset_delta: VarInt,
    pub key_length: VarInt,
    pub key: KafkaValue,
    pub value_length: VarInt,
    pub value: KafkaValue,
    pub headers: Vec<RecordHeader>,
}

/// The abstract model of a `Record`.
pub struct RecordV {
    pub length: i32,
    pub attributes: i8,
    pub timestamp_delta: i32,
    pub offset_delta: i32,
    pub key_length: i32,
    pub key: Seq<u8>,
    pub value_length: i32,
    pub value: Seq<u8>,
    pub headers: Seq<RecordHeaderV>,
}

/// The bytes of a record after its length field: attributes, the two
/// deltas, key, value, header count, headers.
pub open spec fn record_body_bytes(r: Record) -> Seq<u8> {
    enc_i8(r.attributes) + enc_varint(r.timestamp_delta.0) + enc_varint(r.offset_delta.0)
        + r.key.spec_bytes() + r.value.spec_bytes() + enc_varint(r.headers@.len() as i32)
        + enc_elems(r.headers@)
}

impl Record {
    /// Writes everything after the length field.
    fn write_body(&self, w: &mut BufferWriter)
        requires
            self.key.wf(),
            self.value.wf(),
            self.headers@.len() <= i32::MAX,
            forall|k: int| 0 <= k < self.headers@.len() ==> (#[trigger] self.headers@[k]).wf(),
        ensures
            final(w).buffer@ == old(w).buffer@ + record_body_bytes(*self),
    {
        w.write_int8(self.attributes);
        self.timestamp_delta.write_to_buffer(w);
        self.offset_delta.write_to_buffer(w);
        self.key.write_to_buffer(w);
        self.value.write_to_buffer(w);
        w.write_varint(self.headers.len() as i32);
        write_elems(w, &self.headers);
    }

    /// A record holding `key` and `value`, the standard header, and a
    /// length field computed from the encoded body.
    pub fn new(key: Vec<u8>, value: Vec<u8>) -> (r: Self)
        requires
            key@.len() + value@.len() + 100 <= i32::MAX,
        ensures
            r.wf(),
            r.key.0@ == key@,
            r.value.0@ == value@,
            r.attributes == 0,
            r.timestamp_delta.0 == 0,
            r.offset_delta.0 == 1,
            r.headers@.len() == 1,
            r.headers@[0].header_key.0@ == seq![97u8, 112u8, 112u8],
            r.headers@[0].header_value.0@ == seq![114u8, 117u8, 115u8, 116u8],
            r.spec_bytes().len() <= key@.len() + value@.len() + 60,
    {
        let headers = RecordHeader::new();
        let key_length = VarInt(key.len() as i32);
        let value_length = VarInt(value.len() as i32);
        let mut record = Record {
            length: VarInt(0),
            attributes: 0,
            timestamp_delta: VarInt(0),
            offset_delta: VarInt(1),
            key_length,
            key: KafkaValue(key),
            value_length,
            value: KafkaValue(value),
            headers,
        };
        let mut w = BufferWriter::new();
        record.write_body(&mut w);
        proof {
            lemma_record_body_len(record);
        }
        record.length = VarInt(w.buffer.len() as i32);
        proof {
            assert(record_body_bytes(record) == w.buffer@);
            lemma_enc_varint_len(record.length.0);
        }
        record
    }
}

/// Bounds the encoded body of a record built by `Record::new`.
proof fn lemma_record_body_len(r: Record)
    requires
        r.headers@.len() == 1,
        r.headers@[0].spec_bytes().len() <= 17,
    ensures
        record_body_bytes(r).len() <= r.key.0@.len() + r.value.0@.len() + 43,
{
    lemma_enc_varint_len(r.timestamp_delta.0);
    lemma_enc_varint_len(r.offset_delta.0);
    lemma_enc_varint_len(r.headers@.len() as i32);
    lemma_enc_varlen_bytes_len(r.key.0@);
    lemma_enc_varlen_bytes_len(r.value.0@);
    assert(r.headers@.skip(1) =~= Seq::<RecordHeader>::empty());
    assert(enc_elems(r.headers@) == r.headers@[0].spec_bytes() + enc_elems(r.headers@.skip(1)));
    assert(enc_elems(r.headers@).len() <= 17);
}

impl ToBytes for Record {
    open spec fn wf(&self) -> bool {
        &&& self.key.wf()
        &&& self.value.wf()
        &&& self.headers@.len() <= i32::MAX
        &&& forall|k: int| 0 <= k < self.headers@.len() ==> (#[trigger] self.headers@[k]).wf()
        &&& self.length.0 == record_body_bytes(*self).len()
        &&& self.key_length.0 == self.key.0@.len()
        &&& self.value_length.0 == self.value.0@.len()
    }

    open spec fn spec_bytes(&self) -> Seq<u8> {
        enc_varint(self.length.0) + record_body_bytes(*self)
    }

    fn get_in_bytes(&self) -> (r: Vec<u8>) {
        let mut w = BufferWriter::new();
        self.length.write_to_buffer(&mut w);
        self.write_body(&mut w);
        w.buffer
    }
}

impl FromBytes for Record {
    type V = RecordV;

    open spec fn view_of(self) -> RecordV {
        RecordV {
            length: self.length.0,
            attributes: self.attributes,
            timestamp_delta: self.timestamp_delta.0,
            offset_delta: self.offset_delta.0,
            key_length: self.key_length.0,
            key: self.key.0@,
            value_length: self.value_length.0,
            value: self.value.0@,
            headers: views_of(self.headers@),
        }
    }

    open spec fn spec_dec(s: Seq<u8>, i: int) -> Option<(RecordV, int)> {
        match dec_varint(s, i) {
            Option::None => Option::None,
            Option::Some((length, j1)) => match dec_i8(s, j1) {
                Option::None => Option::None,
                Option::Some((attributes, j2)) => match dec_varint(s, j2) {
                    Option::None => Option::None,
                    Option::Some((timestamp_delta, j3)) => match dec_varint(s, j3) {
                        Option::None => Option::None,
                        Option::Some((offset_delta, j4)) => match dec_varlen_bytes(s, j4) {
                            Option::None => Option::None,
                            Option::Some((key, j5)) => match dec_varlen_bytes(s, j5) {
                                Option::None => Option::None,
                                Option::Some((value, j6)) => match dec_varint(s, j6) {
                                    Option::None => Option::None,
                                    Option::Some((hcount, j7)) => if hcount < 0 {
                                        Option::None
                                    } else {
                                        match dec_elems::<RecordHeader>(s, j7, hcount as nat) {
                                            Option::None => Option::None,
                                            Option::Some((headers, j8)) => Option::Some(
                                                (
                                                    RecordV {
                                                        length,
                                                        attributes,
                                                        timestamp_delta,
                                                        offset_delta,
                                                        key_length: key.len() as i32,
                                                        key,
                                                        value_length: value.len() as i32,
                                                        value,
                                                        headers,
                                                    },
                                                    j8,
                                                ),
                                            ),
                                        }
                                    },
                                },
                            },
                        },
                    },
                },
            },
        }
    }

    fn get_from_bytes(reader: &mut BufferReader) -> (r: Result<Self, DecodeError>) {
        let pos0 = reader.pos;
        let length = match VarInt::read_from_buffer(reader) {
            Result::Ok(v) => v,
            Result::Err(e) => {
                return Result::Err(e);
            },
        };
        let attributes = match reader.read_int8() {
            Result::Ok(v) => v,
            Result::Err(e) => {
                reader.pos = pos0;
                return Result::Err(e);
            },
        };
        let timestamp_delta = match VarInt::read_from_buffer(reader) {
            Result::Ok(v) => v,
            Result::Err(e) => {
                reader.pos = pos0;
                return Result::Err(e);
            },
        };
        let offset_delta = match VarInt::read_from_buffer(reader) {
            Result::Ok(v) => v,
            Result::Err(e) => {
                reader.pos = pos0;
                return Result::Err(e);
            },
        };
        let key = match KafkaValue::read_from_buffer(reader) {
            Result::Ok(v) => v,
            Result::Err(e) => {
                reader.pos = pos0;
                return Result::Err(e);
            },
        };
        let value = match KafkaValue::read_from_buffer(reader) {
            Result::Ok(v) => v,
            Result::Err(e) => {
                reader.pos = pos0;
                return Result::Err(e);
            },
        };
        let hcount = match VarInt::read_from_buffer(reader) {
            Result::Ok(v) => v,
            Result::Err(e) => {
                reader.pos = pos0;
                return Result::Err(e);
            },
        };
        if hcount.0 < 0 {
            reader.pos = pos0;
            return Result::Err(DecodeError);
        }
        let headers = match read_elems::<RecordHeader>(reader, hcount.0 as usize) {
            Result::Ok(v) => v,
            Result::Err(e) => {
                reader.pos = pos0;
                return Result::Err(e);
            },
        };
        let key_length = VarInt(key.0.len() as i32);
        let value_length = VarInt(value.0.len() as i32);
        Result::Ok(
            Record {
                length,
                attributes,
                timestamp_delta,
                offset_delta,
                key_length,
                key,
                value_length,
                value,
                headers,
            },
        )
    }
}

/// Record header round trip: decoding an encoded header, wherever it
/// sits in a larger buffer, yields the header back.
pub proof fn lemma_dec_enc_record_header(s: Seq<u8>, i: int, h: RecordHeader)
    requires
        h.wf(),
        0 <= i,
        i + h.spec_bytes().len() <= s.len(),
        s.subrange(i, i + h.spec_bytes().len()) == h.spec_bytes(),
    ensures
        RecordHeader::spec_dec(s, i) == Option::<(RecordHeaderV, int)>::Some(
            (h.view_of(), i + h.spec_bytes().len()),
        ),
{
    let ke = enc_varlen_bytes(h.header_key.0@);
    let ve = enc_varlen_bytes(h.header_value.0@);
    assert(h.spec_bytes() == ke + ve);
    lemma_concat_prefix(s, i, ke, ve);
    lemma_dec_enc_varlen_bytes(s, i, h.header_key.0@);
    lemma_dec_enc_varlen_bytes(s, i + ke.len(), h.header_value.0@);
}

/// Consecutive encoded record headers decode back, one after another.
pub proof fn lemma_dec_enc_record_headers(s: Seq<u8>, i: int, hs: Seq<RecordHeader>)
    requires
        forall|k: int| 0 <= k < hs.len() ==> (#[trigger] hs[k]).wf(),
        0 <= i,
        i + enc_elems(hs).len() <= s.len(),
        s.subrange(i, i + enc_elems(hs).len()) == enc_elems(hs),
    ensures
        dec_elems::<RecordHeader>(s, i, hs.len()) == Option::<(Seq<RecordHeaderV>, int)>::Some(
            (views_of(hs), i + enc_elems(hs).len()),
        ),
    decreases hs.len(),
{
    let e = enc_elems(hs);
    if hs.len() == 0 {
        assert(views_of(hs) =~= Seq::<RecordHeaderV>::empty());
    } else {
        let he = hs[0].spec_bytes();
        let tail = enc_elems(hs.skip(1));
        assert(e == he + tail);
        lemma_concat_prefix(s, i, he, tail);
        lemma_dec_enc_record_header(s, i, hs[0]);
        lemma_dec_enc_record_headers(s, i + he.len(), hs.skip(1));
        assert(views_of(hs) =~= seq![hs[0].view_of()] + views_of(hs.skip(1)));
    }
}

/// Record round trip: decoding an encoded well-formed record, wherever
/// it sits in a larger buffer, yields the record back.
#[verifier::rlimit(60)]
pub proof fn lemma_dec_enc_record(s: Seq<u8>, i: int, r: Record)
    requires
        r.wf(),
        0 <= i,
        i + r.spec_bytes().len() <= s.len(),
        s.subrange(i, i + r.spec_bytes().len()) == r.spec_bytes(),
    ensures
        Record::spec_dec(s, i) == Option::<(RecordV, int)>::Some(
            (r.view_of(), i + r.spec_bytes().len()),
        ),
{
    let p0 = enc_varint(r.length.0);
    let p1 = enc_i8(r.attributes);
    let p2 = enc_varint(r.timestamp_delta.0);
    let p3 = enc_varint(r.offset_delta.0);
    let p4 = enc_varlen_bytes(r.key.0@);
    let p5 = enc_varlen_bytes(r.value.0@);
    let p6 = enc_varint(r.headers@.len() as i32);
    let p7 = enc_elems(r.headers@);
    let body = record_body_bytes(r);
    let j0 = i;
    let j1 = j0 + p0.len();
    let j2 = j1 + p1.len();
    let j3 = j2 + p2.len();
    let j4 = j3 + p3.len();
    let j5 = j4 + p4.len();
    let j6 = j5 + p5.len();
    let j7 = j6 + p6.len();
    let j8 = j7 + p7.len();
    // peel the parts off, last first, following how the body is built
    assert(r.spec_bytes() == p0 + body);
    lemma_concat_prefix(s, i, p0, body);
    assert(body == (p1 + p2 + p3 + p4 + p5 + p6) + p7);
    lemma_concat_prefix(s, j1, p1 + p2 + p3 + p4 + p5 + p6, p7);
    lemma_concat_prefix(s, j1, p1 + p2 + p3 + p4 + p5, p6);
    lemma_concat_prefix(s, j1, p1 + p2 + p3 + p4, p5);
    lemma_concat_prefix(s, j1, p1 + p2 + p3, p4);
    lemma_concat_prefix(s, j1, p1 + p2, p3);
    lemma_concat_prefix(s, j1, p1, p2);
    lemma_dec_enc_varint(s, j0, r.length.0);
    lemma_dec_enc_i8(s, j1, r.attributes);
    lemma_dec_enc_varint(s, j2, r.timestamp_delta.0);
    lemma_dec_enc_varint(s, j3, r.offset_delta.0);
    lemma_dec_enc_varlen_bytes(s, j4, r.key.0@);
    lemma_dec_enc_varlen_bytes(s, j5, r.value.0@);
    lemma_dec_enc_varint(s, j6, r.headers@.len() as i32);
    lemma_dec_enc_record_headers(s, j7, r.headers@);
    assert(Record::spec_dec(s, i) matches Option::Some(p) && p.0 == r.view_of() && p.1 == j8);
}

/// A batch of records with the fixed prefix fields.
#[derive(Debug, Clone)]
pub struct RecordBatch {
    pub base_offset: i64,
    pub batch_length: i32,
    pub partition_leader_epoch: i32,
    pub magic: i8,
    pub crc: i32,
    pub attributes: i16,
    pub last_offset_delta: i32,
    pub first_timestamp: i64,
    pub max_timestamp: i64,
    pub producer_id: i64,
    pub producer_epoch: i16,
    pub base_sequence: i32,
    pub records: Vec<Record>,
}

/// The abstract model of a `RecordBatch`.
pub struct RecordBatchV {
    pub base_offset: i64,
    pub batch_length: i32,
    pub partition_leader_epoch: i32,
    pub magic: i8,
    pub crc: i32,
    pub attributes: i16,
    pub last_offset_delta: i32,
    pub first_timestamp: i64,
    pub max_timestamp: i64,
    pub producer_id: i64,
    pub producer_epoch: i16,
    pub base_sequence: i32,
    pub records: Seq<RecordV>,
}

/// The records region: the batch's records, encoded back to back.
pub open spec fn records_region(b: RecordBatch) -> Seq<u8> {
    enc_elems(b.records@)
}

/// The bytes from `attributes` to the end of the batch; `crc` covers
/// exactly these.
pub open spec fn batch_suffix_bytes(b: RecordBatch) -> Seq<u8> {
    enc_i16(b.attributes) + enc_i32(b.last_offset_delta) + enc_i64(b.first_timestamp) + enc_i64(
        b.max_timestamp,
    ) + enc_i64(b.producer_id) + enc_i16(b.producer_epoch) + enc_i32(b.base_sequence) + enc_i32(
        records_region(b).len() as i32,
    ) + records_region(b)
}

impl RecordBatch {
    /// Writes the bytes from `attributes` to the end.
    fn suffix_in_bytes(&self) -> (r: Vec<u8>)
        requires
            forall|k: int| 0 <= k < self.records@.len() ==> (#[trigger] self.records@[k]).wf(),
            records_region(*self).len() <= i32::MAX,
        ensures
            r@ == batch_suffix_bytes(*self),
    {
        let mut rw = BufferWriter::new();
        write_elems(&mut rw, &self.records);
        let region = rw.buffer;
        let mut w = BufferWriter::new();
        w.write_int16(self.attributes);
        w.write_int32(self.last_offset_delta);
        w.write_int64(self.first_timestamp);
        w.write_int64(self.max_timestamp);
        w.write_int64(self.producer_id);
        w.write_int16(self.producer_epoch);
        w.write_int32(self.base_sequence);
        w.write_int32(region.len() as i32);
        w.write_raw(&region);
        w.buffer
    }

    /// A batch over `records`, with `batch_length` counting the bytes
    /// from `partition_leader_epoch` to the end, and `crc` computed over
    /// the bytes from `attributes` to the end.
    pub fn new(records: Vec<Record>) -> (r: Self)
        requires
            forall|k: int| 0 <= k < records@.len() ==> (#[trigger] records@[k]).wf(),
            enc_elems(records@).len() + 49 <= i32::MAX,
        ensures
            r.wf(),
            r.records@ == records@,
            r.base_offset == 1,
            r.partition_leader_epoch == -1,
            r.magic == 2,
            r.attributes == 0,
            r.last_offset_delta == 0,
            r.first_timestamp == 0,
            r.max_timestamp == -1,
            r.producer_id == -1,
            r.producer_epoch == 1,
            r.base_sequence == -1,
            r.batch_length == 49 + records_region(r).len(),
            r.crc == crc32c(batch_suffix_bytes(r)) as i32,
    {
        let mut rw = BufferWriter::new();
        write_elems(&mut rw, &records);
        let region_len = rw.buffer.len();
        let mut batch = RecordBatch {
            base_offset: 1,
            batch_length: 49 + region_len as i32,
            partition_leader_epoch: -1,
            magic: 2,
            crc: 0,
            attributes: 0,
            last_offset_delta: 0,
            first_timestamp: 0,
            max_timestamp: -1,
            producer_id: -1,
            producer_epoch: 1,
            base_sequence: -1,
            records,
        };
        let suffix = batch.suffix_in_bytes();
        let crc = crc32c_compute(&suffix) as i32;
        batch.crc = crc;
        proof {
            assert(batch_suffix_bytes(batch) == suffix@);
        }
        batch
    }
}

impl ToBytes for RecordBatch {
    open spec fn wf(&self) -> bool {
        &&& forall|k: int| 0 <= k < self.records@.len() ==> (#[trigger] self.records@[k]).wf()
        &&& records_region(*self).len() + 49 <= i32::MAX
        &&& self.batch_length == 49 + records_region(*self).len()
        &&& self.crc == crc32c(batch_suffix_bytes(*self)) as i32
    }

    open spec fn spec_bytes(&self) -> Seq<u8> {
        enc_i64(self.base_offset) + enc_i32(self.batch_length) + enc_i32(
            self.partition_leader_epoch,
        ) + enc_i8(self.magic) + enc_i32(self.crc) + batch_suffix_bytes(*self)
    }

    fn get_in_bytes(&self) -> (r: Vec<u8>) {
        let mut w = BufferWriter::new();
        w.write_int64(self.base_offset);
        w.write_int32(self.batch_length);
        w.write_int32(self.partition_leader_epoch);
        w.write_int8(self.magic);
        w.write_int32(self.crc);
        let suffix = self.suffix_in_bytes();
        w.write_raw(&suffix);
        w.buffer
    }
}

/// The five fields before `attributes`.
pub open spec fn dec_batch_head(s: Seq<u8>, i: int) -> Option<((i64, i32, i32, i8, i32), int)> {
    match dec_i64(s, i) {
        Option::None => Option::None,
        Option::Some((base_offset, j1)) => match dec_i32(s, j1) {
            Option::None => Option::None,
            Option::Some((batch_length, j2)) => match dec_i32(s, j2) {
                Option::None => Option::None,
                Option::Some((partition_leader_epoch, j3)) => match dec_i8(s, j3) {
                    Option::None => Option::None,
                    Option::Some((magic, j4)) => match dec_i32(s, j4) {
                        Option::None => Option::None,
                        Option::Some((crc, j5)) => Option::Some(
                            ((base_offset, batch_length, partition_leader_epoch, magic, crc), j5),
                        ),
                    },
                },
            },
        },
    }
}

/// The seven fields from `attributes` to `base_sequence`.
pub open spec fn dec_batch_mid(s: Seq<u8>, i: int) -> Option<
    ((i16, i32, i64, i64, i64, i16, i32), int),
> {
    match dec_i16(s, i) {
        Option::None => Option::None,
        Option::Some((attributes, j1)) => match dec_i32(s, j1) {
            Option::None => Option::None,
            Option::Some((last_offset_delta, j2)) => match dec_i64(s, j2) {
                Option::None => Option::None,
                Option::Some((first_timestamp, j3)) => match dec_i64(s, j3) {
                    Option::None => Option::None,
                    Option::Some((max_timestamp, j4)) => match dec_i64(s, j4) {
                        Option::None => Option::None,
                        Option::Some((producer_id, j5)) => match dec_i16(s, j5) {
                            Option::None => Option::None,
                            Option::Some((producer_epoch, j6)) => match dec_i32(s, j6) {
                                Option::None => Option::None,
                                Option::Some((base_sequence, j7)) => Option::Some(
                                    (
                                        (
                                            attributes,
                                            last_offset_delta,
                                            first_timestamp,
                                            max_timestamp,
                                            producer_id,
                                            producer_epoch,
                                            base_sequence,
                                        ),
                                        j7,
                                    ),
                                ),
                            },
                        },
                    },
                },
            },
        },
    }
}

/// A region of encoded records decodes back to exactly those records.
pub proof fn lemma_dec_enc_records_region(s: Seq<u8>, i: int, rs: Seq<Record>)
    requires
        forall|k: int| 0 <= k < rs.len() ==> (#[trigger] rs[k]).wf(),
        0 <= i,
        i + enc_elems(rs).len() <= s.len(),
        s.subrange(i, i + enc_elems(rs).len()) == enc_elems(rs),
    ensures
        dec_until::<Record>(s, i, i + enc_elems(rs).len()) == Option::<
            (Seq<RecordV>, int),
        >::Some((views_of(rs), i + enc_elems(rs).len())),
    decreases rs.len(),
{
    let e = enc_elems(rs);
    if rs.len() == 0 {
        assert(views_of(rs) =~= Seq::<RecordV>::empty());
    } else {
        let first = rs[0].spec_bytes();
        let tail = enc_elems(rs.skip(1));
        assert(e == first + tail);
        lemma_concat_prefix(s, i, first, tail);
        lemma_dec_enc_record(s, i, rs[0]);
        lemma_enc_varint_len(rs[0].length.0);
        assert(first.len() >= 1);
        lemma_dec_enc_records_region(s, i + first.len(), rs.skip(1));
        assert(views_of(rs) =~= seq![rs[0].view_of()] + views_of(rs.skip(1)));
    }
}

/// Record batch round trip: decoding an encoded well-formed batch,
/// wherever it sits in a larger buffer, yields the batch back.
#[verifier::rlimit(100)]
pub proof fn lemma_dec_enc_record_batch(s: Seq<u8>, i: int, b: RecordBatch)
    requires
        b.wf(),
        0 <= i,
        i + b.spec_bytes().len() <= s.len(),
        s.subrange(i, i + b.spec_bytes().len()) == b.spec_bytes(),
    ensures
        RecordBatch::spec_dec(s, i) == Option::<(RecordBatchV, int)>::Some(
            (b.view_of(), i + b.spec_bytes().len()),
        ),
{
    let region = records_region(b);
    let h0 = enc_i64(b.base_offset);
    let h1 = enc_i32(b.batch_length);
    let h2 = enc_i32(b.partition_leader_epoch);
    let h3 = enc_i8(b.magic);
    let h4 = enc_i32(b.crc);
    let m0 = enc_i16(b.attributes);
    let m1 = enc_i32(b.last_offset_delta);
    let m2 = enc_i64(b.first_timestamp);
    let m3 = enc_i64(b.max_timestamp);
    let m4 = enc_i64(b.producer_id);
    let m5 = enc_i16(b.producer_epoch);
    let m6 = enc_i32(b.base_sequence);
    let m7 = enc_i32(region.len() as i32);
    let head = h0 + h1 + h2 + h3 + h4;
    let suffix = batch_suffix_bytes(b);
    let j0 = i;
    let j1 = j0 + 8;
    let j2 = j1 + 4;
    let j3 = j2 + 4;
    let j4 = j3 + 1;
    let j5 = j4 + 4;
    let k0 = j5 + 2;
    let k1 = k0 + 4;
    let k2 = k1 + 8;
    let k3 = k2 + 8;
    let k4 = k3 + 8;
    let k5 = k4 + 2;
    let k6 = k5 + 4;
    let k7 = k6 + 4;
    let k8 = k7 + region.len();
    assert(b.spec_bytes() == (h0 + h1 + h2 + h3 + h4) + suffix);
    lemma_concat_prefix(s, i, h0 + h1 + h2 + h3 + h4, suffix);
    lemma_concat_prefix(s, j0, h0 + h1 + h2 + h3, h4);
    lemma_concat_prefix(s, j0, h0 + h1 + h2, h3);
    lemma_concat_prefix(s, j0, h0 + h1, h2);
    lemma_concat_prefix(s, j0, h0, h1);
    lemma_dec_enc_i64(s, j0, b.base_offset);
    lemma_dec_enc_i32(s, j1, b.batch_length);
    lemma_dec_enc_i32(s, j2, b.partition_leader_epoch);
    lemma_dec_enc_i8(s, j3, b.magic);
    lemma_dec_enc_i32(s, j4, b.crc);
    assert(suffix == (m0 + m1 + m2 + m3 + m4 + m5 + m6 + m7) + region);
    lemma_concat_prefix(s, j5, m0 + m1 + m2 + m3 + m4 + m5 + m6 + m7, region);
    lemma_concat_prefix(s, j5, m0 + m1 + m2 + m3 + m4 + m5 + m6, m7);
    lemma_concat_prefix(s, j5, m0 + m1 + m2 + m3 + m4 + m5, m6);
    lemma_concat_prefix(s, j5, m0 + m1 + m2 + m3 + m4, m5);
    lemma_concat_prefix(s, j5, m0 + m1 + m2 + m3, m4);
    lemma_concat_prefix(s, j5, m0 + m1 + m2, m3);
    lemma_concat_prefix(s, j5, m0 + m1, m2);
    lemma_concat_prefix(s, j5, m0, m1);
    lemma_dec_enc_i16(s, j5, b.attributes);
    lemma_dec_enc_i32(s, k0, b.last_offset_delta);
    lemma_dec_enc_i64(s, k1, b.first_timestamp);
    lemma_dec_enc_i64(s, k2, b.max_timestamp);
    lemma_dec_enc_i64(s, k3, b.producer_id);
    lemma_dec_enc_i16(s, k4, b.producer_epoch);
    lemma_dec_enc_i32(s, k5, b.base_sequence);
    lemma_dec_enc_i32(s, k6, region.len() as i32);
    lemma_dec_enc_records_region(s, k7, b.records@);
    assert(dec_batch_head(s, i) == Option::<((i64, i32, i32, i8, i32), int)>::Some(
        ((b.base_offset, b.batch_length, b.partition_leader_epoch, b.magic, b.crc), j5),
    ));
    assert(dec_batch_mid(s, j5) == Option::<((i16, i32, i64, i64, i64, i16, i32), int)>::Some(
        (
            (
                b.attributes,
                b.last_offset_delta,
                b.first_timestamp,
                b.max_timestamp,
                b.producer_id,
                b.producer_epoch,
                b.base_sequence,
            ),
            k6,
        ),
    ));
    assert(RecordBatch::spec_dec(s, i) matches Option::Some(p) && p.0 == b.view_of() && p.1
        == k8);
}

impl FromBytes for RecordBatch {
    type V = RecordBatchV;

    open spec fn view_of(self) -> RecordBatchV {
        RecordBatchV {
            base_offset: self.base_offset,
            batch_length: self.batch_length,
            partition_leader_epoch: self.partition_leader_epoch,
            magic: self.magic,
            crc: self.crc,
            attributes: self.attributes,
            last_offset_delta: self.last_offset_delta,
            first_timestamp: self.first_timestamp,
            max_timestamp: self.max_timestamp,
            producer_id: self.producer_id,
            producer_epoch: self.producer_epoch,
            base_sequence: self.base_sequence,
            records: views_of(self.records@),
        }
    }

    open spec fn spec_dec(s: Seq<u8>, i: int) -> Option<(RecordBatchV, int)> {
        match dec_batch_head(s, i) {
            Option::None => Option::None,
            Option::Some((head, j1)) => match dec_batch_mid(s, j1) {
                Option::None => Option::None,
                Option::Some((mid, j2)) => match dec_i32(s, j2) {
                    Option::None => Option::None,
                    Option::Some((region_len, j3)) => if region_len < 0 || j3 + region_len
                        > s.len() {
                        Option::None
                    } else {
                        match dec_until::<Record>(s, j3, j3 + region_len) {
                            Option::None => Option::None,
                            Option::Some((records, j4)) => Option::Some(
                                (
                                    RecordBatchV {
                                        base_offset: head.0,
                                        batch_length: head.1,
                                        partition_leader_epoch: head.2,
                                        magic: head.3,
                                        crc: head.4,
                                        attributes: mid.0,
                                        last_offset_delta: mid.1,
                                        first_timestamp: mid.2,
                                        max_timestamp: mid.3,
                                        producer_id: mid.4,
                                        producer_epoch: mid.5,
                                        base_sequence: mid.6,
                                        records,
                                    },
                                    j4,
                                ),
                            ),
                        }
                    },
                },
            },
        }
    }

    fn get_from_bytes(reader: &mut BufferReader) -> (r: Result<Self, DecodeError>) {
        let pos0 = reader.pos;
        let base_offset = match reader.read_int64() {
            Result::Ok(v) => v,
            Result::Err(e) => {
                return Result::Err(e);
            },
        };
        let batch_length = match reader.read_int32() {
            Result::Ok(v) => v,
            Result::Err(e) => {
                reader.pos = pos0;
                return Result::Err(e);
            },
        };
        let partition_leader_epoch = match reader.read_int32() {
            Result::Ok(v) => v,
            Result::Err(e) => {
                reader.pos = pos0;
                return Result::Err(e);
            },
        };
        let magic = match reader.read_int8() {
            Result::Ok(v) => v,
            Result::Err(e) => {
                reader.pos = pos0;
                return Result::Err(e);
            },
        };
        let crc = match reader.read_int32() {
            Result::Ok(v) => v,
            Result::Err(e) => {
                reader.pos = pos0;
                return Result::Err(e);
            },
        };
        let attributes = match reader.read_int16() {
            Result::Ok(v) => v,
            Result::Err(e) => {
                reader.pos = pos0;
                return Result::Err(e);
            },
        };
        let last_offset_delta = match reader.read_int32() {
            Result::Ok(v) => v,
            Result::Err(e) => {
                reader.pos = pos0;
                return Result::Err(e);
            },
        };
        let first_timestamp = match reader.read_int64() {
            Result::Ok(v) => v,
            Result::Err(e) => {
                reader.pos = pos0;
                return Result::Err(e);
            },
        };
        let max_timestamp = match reader.read_int64() {
            Result::Ok(v) => v,
            Result::Err(e) => {
                reader.pos = pos0;
                return Result::Err(e);
            },
        };
        let producer_id = match reader.read_int64() {
            Result::Ok(v) => v,
            Result::Err(e) => {
                reader.pos = pos0;
                return Result::Err(e);
            },
        };
        let producer_epoch = match reader.read_int16() {
            Result::Ok(v) => v,
            Result::Err(e) => {
                reader.pos = pos0;
                return Result::Err(e);
            },
        };
        let base_sequence = match reader.read_int32() {
            Result::Ok(v) => v,
            Result::Err(e) => {
                reader.pos = pos0;
                return Result::Err(e);
            },
        };
        let region_len = match reader.read_int32() {
            Result::Ok(v) => v,
            Result::Err(e) => {
                reader.pos = pos0;
                return Result::Err(e);
            },
        };
        if region_len < 0 || region_len as usize > reader.buffer.len() - reader.pos {
            reader.pos = pos0;
            return Result::Err(DecodeError);
        }
        let end = reader.pos + region_len as usize;
        let records = match read_until::<Record>(reader, end) {
            Result::Ok(v) => v,
            Result::Err(e) => {
                reader.pos = pos0;
                return Result::Err(e);
            },
        };
        Result::Ok(
            RecordBatch {
                base_offset,
                batch_length,
                partition_leader_epoch,
                magic,
                crc,
                attributes,
                last_offset_delta,
                first_timestamp,
                max_timestamp,
                producer_id,
                producer_epoch,
                base_sequence,
                records,
            },
        )
    }
}

} // verus!
