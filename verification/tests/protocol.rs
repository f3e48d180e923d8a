use kafka_wire::api_versions::{ApiVersionsRequest, ApiVersionsResponse};
use kafka_wire::buffer_reader::BufferReader;
use kafka_wire::buffer_writer::BufferWriter;
use kafka_wire::create_topic::{CreateTopicRequest, CreateTopicResponse};
use kafka_wire::crc32c::crc32c_compute;
use kafka_wire::fetch::{FetchRequest, FetchResponse};
use kafka_wire::find_coordinator::{FindCoordinatorRequest, FindCoordinatorResponse};
use kafka_wire::header::RequestHeader;
use kafka_wire::join_group::{JoinGroupRequest, JoinGroupResponse};
use kafka_wire::list_offsets::{ListOffsetsRequest, ListOffsetsResponse, PartitionRequest, TopicRequest};
use kafka_wire::metadata::{MetadataRequest, MetadataResponse};
use kafka_wire::offset_commit::{CommitOffsetRequest, CommitOffsetResponse};
use kafka_wire::primitives::KafkaString;
use kafka_wire::produce::ProduceRequest;
use kafka_wire::record::{Record, RecordBatch};
use kafka_wire::request::{Request, ToBytes};
use kafka_wire::response::{FromBytes, Response};

#[test]
fn api_versions_request_frame() {
    // api_key 18, version 1, correlation id 1, client id "roi":
    // a 17-byte frame whose size field counts the 13 bytes after it.
    let header = RequestHeader::new(18, 1, 1, b"roi".to_vec());
    let request = Request::new(header, ApiVersionsRequest {});
    assert_eq!(request.size, 13);
    assert_eq!(
        request.buffer,
        vec![
            0x00, 0x00, 0x00, 0x0D, 0x00, 0x12, 0x00, 0x01, 0x00, 0x00, 0x00, 0x01, 0x00, 0x03,
            0x72, 0x6F, 0x69
        ]
    );
}

#[test]
fn frame_size_prefix_counts_the_rest() {
    let header = RequestHeader::new(3, 6, 7, b"roi".to_vec());
    let body = MetadataRequest::new(vec![KafkaString(b"a".to_vec())]);
    let request = Request::new(header, body);
    let n = request.buffer.len();
    let size = i32::from_be_bytes([
        request.buffer[0],
        request.buffer[1],
        request.buffer[2],
        request.buffer[3],
    ]);
    assert_eq!(size as usize, n - 4);
}

#[test]
fn api_versions_response_decodes() {
    // correlation id 1; error 0; one entry {18, 0, 3}; throttle 0
    let mut w = BufferWriter::new();
    w.write_int32(1);
    w.write_int16(0);
    w.write_int32(1);
    w.write_int16(18);
    w.write_int16(0);
    w.write_int16(3);
    w.write_int32(0);
    let size = w.buffer.len() as i32;
    let response = Response::<ApiVersionsResponse>::build(size, w.buffer).unwrap();
    assert_eq!(response.header.correlation_id, 1);
    assert_eq!(response.body.error_code, 0);
    assert_eq!(response.body.api_versions.len(), 1);
    assert_eq!(response.body.api_versions[0].api_key, 18);
    assert_eq!(response.body.api_versions[0].min_version, 0);
    assert_eq!(response.body.api_versions[0].max_version, 3);
    assert_eq!(response.body.throttle_time_ms, 0);
}

#[test]
fn metadata_request_empty_topics_writes_count_zero() {
    // an empty list means "all topics": count 0, not -1, then the
    // allow_auto_topic_creation byte
    let body = MetadataRequest::new(Vec::new());
    assert_eq!(body.get_in_bytes(), vec![0x00, 0x00, 0x00, 0x00, 0x00]);
}

#[test]
fn metadata_response_round_trip() {
    let mut w = BufferWriter::new();
    w.write_int32(0); // throttle
    w.write_int32(1); // one broker
    w.write_int32(7);
    w.write_str(&b"h".to_vec());
    w.write_int32(9092);
    w.write_nullable_str(&None); // rack
    w.write_nullable_str(&Some(b"c".to_vec())); // cluster id
    w.write_int32(7); // controller
    w.write_int32(1); // one topic
    w.write_int16(0);
    w.write_str(&b"t".to_vec());
    w.write_bool(false);
    w.write_int32(1); // one partition
    w.write_int16(0);
    w.write_int32(0);
    w.write_int32(7);
    w.write_array_int(&vec![7]);
    w.write_array_int(&vec![7]);
    w.write_array_int(&Vec::new());
    let mut r = BufferReader::new(w.buffer);
    let m = MetadataResponse::get_from_bytes(&mut r).unwrap();
    assert_eq!(m.brokers.len(), 1);
    assert_eq!(m.brokers[0].node_id, 7);
    assert_eq!(m.brokers[0].host, b"h".to_vec());
    assert_eq!(m.brokers[0].port, 9092);
    assert_eq!(m.brokers[0].rack, None);
    assert_eq!(m.cluster_id, Some(b"c".to_vec()));
    assert_eq!(m.topics.len(), 1);
    assert_eq!(m.topics[0].name, b"t".to_vec());
    assert_eq!(m.topics[0].partitions[0].leader_id, 7);
    assert_eq!(r.remaining(), 0);
}

#[test]
fn create_topic_request_body_bytes() {
    // one topic "t1", 3 partitions, replication 1, no assignments or
    // configs, timeout 5000, validate_only false
    let request = CreateTopicRequest::new(b"t1".to_vec(), 3, 1);
    assert_eq!(
        request.get_in_bytes(),
        vec![
            0x00, 0x00, 0x00, 0x01, // one topic
            0x00, 0x02, 0x74, 0x31, // "t1"
            0x00, 0x00, 0x00, 0x03, // num_partitions
            0x00, 0x01, // replication_factor
            0x00, 0x00, 0x00, 0x00, // assignments
            0x00, 0x00, 0x00, 0x00, // configs
            0x00, 0x00, 0x13, 0x88, // timeout_ms 5000
            0x00, // validate_only
        ]
    );
}

#[test]
fn create_topic_response_reports_success() {
    let mut w = BufferWriter::new();
    w.write_int32(0);
    w.write_int32(1);
    w.write_str(&b"t1".to_vec());
    w.write_int16(0);
    w.write_nullable_str(&None);
    let mut r = BufferReader::new(w.buffer);
    let resp = CreateTopicResponse::get_from_bytes(&mut r).unwrap();
    assert_eq!(resp.topics.len(), 1);
    assert_eq!(resp.topics[0].name, b"t1".to_vec());
    assert_eq!(resp.topics[0].error_code, 0);
}

#[test]
fn fetch_request_layout() {
    let request = FetchRequest::new(vec![(b"t".to_vec(), vec![0, 1])]);
    let bytes = request.get_in_bytes();
    let mut expected = BufferWriter::new();
    expected.write_int32(-1); // replica_id
    expected.write_int32(5000); // max_wait_ms
    expected.write_int32(100000); // min_bytes
    expected.write_int32(1000000); // max_bytes
    expected.write_int8(0); // isolation_level
    expected.write_int32(0); // session_id
    expected.write_int32(0); // session_epoch
    expected.write_int32(1); // one topic
    expected.write_str(&b"t".to_vec());
    expected.write_int32(2); // two partitions
    for p in [0i32, 1] {
        expected.write_int32(p);
        expected.write_int64(0);
        expected.write_int64(0);
        expected.write_int32(10000);
    }
    expected.write_int32(0); // forgotten topics
    assert_eq!(bytes, expected.buffer);
}

#[test]
fn record_batch_round_trip() {
    // one record, key "k" and value "v", one {"app": "rust"} header
    let record = Record::new(b"k".to_vec(), b"v".to_vec());
    let batch = RecordBatch::new(vec![record]);
    assert_eq!(batch.magic, 2);
    let bytes = batch.get_in_bytes();
    assert_eq!(batch.batch_length as usize, bytes.len() - 12);
    let mut r = BufferReader::new(bytes);
    let decoded = FetchResponse::read_record(&mut r).unwrap();
    assert_eq!(r.remaining(), 0);
    assert_eq!(decoded.records.len(), 1);
    let rec = &decoded.records[0];
    assert_eq!(rec.key.0, b"k".to_vec());
    assert_eq!(rec.value.0, b"v".to_vec());
    assert_eq!(rec.headers.len(), 1);
    assert_eq!(rec.headers[0].header_key.0, b"app".to_vec());
    assert_eq!(rec.headers[0].header_value.0, b"rust".to_vec());
    assert_eq!(decoded.crc, batch.crc);
    assert_eq!(decoded.batch_length, batch.batch_length);
}

#[test]
fn batch_crc_covers_attributes_to_end() {
    let record = Record::new(b"key".to_vec(), b"value".to_vec());
    let batch = RecordBatch::new(vec![record]);
    let bytes = batch.get_in_bytes();
    // the suffix starts after base_offset(8) batch_length(4)
    // partition_leader_epoch(4) magic(1) crc(4)
    let suffix = bytes[21..].to_vec();
    assert_eq!(batch.crc, crc32c_compute(&suffix) as i32);
}

#[test]
fn fetch_response_with_record_batch_round_trip() {
    let record = Record::new(b"k".to_vec(), b"v".to_vec());
    let batch = RecordBatch::new(vec![record]);
    let batch_bytes = batch.get_in_bytes();
    let mut w = BufferWriter::new();
    w.write_int32(0); // throttle
    w.write_int16(0); // error
    w.write_int32(0); // session
    w.write_int32(1); // one topic
    w.write_str(&b"t".to_vec());
    w.write_int32(1); // one partition
    w.write_int32(0); // partition index
    w.write_int16(0); // error
    w.write_int64(1); // high watermark
    w.write_int64(1); // last stable offset
    w.write_int64(0); // log start offset
    w.write_int32(0); // aborted transactions
    w.write_int32(batch_bytes.len() as i32);
    w.write_raw(&batch_bytes);
    let mut r = BufferReader::new(w.buffer);
    let resp = FetchResponse::get_from_bytes(&mut r).unwrap();
    assert_eq!(resp.responses.len(), 1);
    let p = &resp.responses[0].partition_responses[0];
    assert_eq!(p.records.len(), 1);
    assert_eq!(p.records[0].records[0].key.0, b"k".to_vec());
    assert_eq!(r.remaining(), 0);
}

#[test]
fn produce_request_routes_one_record() {
    let request = ProduceRequest::new(b"t".to_vec(), b"key".to_vec(), b"val".to_vec());
    let bytes = request.get_in_bytes();
    // transactional id "kjh", acks 0, timeout 5000, one topic entry
    assert_eq!(bytes[..2], [0x00, 0x03]);
    assert_eq!(bytes[2..5], [0x6B, 0x6A, 0x68]);
    assert_eq!(bytes[5..7], [0x00, 0x00]);
    assert_eq!(bytes[7..11], [0x00, 0x00, 0x13, 0x88]);
    assert_eq!(bytes[11..15], [0x00, 0x00, 0x00, 0x01]);
}

#[test]
fn list_offsets_round_trip() {
    let request = ListOffsetsRequest::new(vec![TopicRequest {
        name: KafkaString(b"t".to_vec()),
        partitions: vec![PartitionRequest { partition_index: 0, timestamp: -1 }],
    }]);
    let bytes = request.get_in_bytes();
    let mut expected = BufferWriter::new();
    expected.write_int32(-1);
    expected.write_int8(0);
    expected.write_int32(1);
    expected.write_str(&b"t".to_vec());
    expected.write_int32(1);
    expected.write_int32(0);
    expected.write_int64(-1);
    assert_eq!(bytes, expected.buffer);

    let mut w = BufferWriter::new();
    w.write_int32(0);
    w.write_int32(1);
    w.write_str(&b"t".to_vec());
    w.write_int32(1);
    w.write_int32(0);
    w.write_int16(0);
    w.write_int64(-1);
    w.write_int64(42);
    let mut r = BufferReader::new(w.buffer);
    let resp = ListOffsetsResponse::get_from_bytes(&mut r).unwrap();
    assert_eq!(resp.topics[0].partitions[0].offset, 42);
}

#[test]
fn offset_commit_round_trip() {
    let request = CommitOffsetRequest::new(b"grp".to_vec(), b"test".to_vec(), 0, 10);
    let bytes = request.get_in_bytes();
    let mut expected = BufferWriter::new();
    expected.write_str(&b"grp".to_vec()); // group id
    expected.write_int32(1); // generation id
    expected.write_str(&b"grp".to_vec()); // member id
    expected.write_int32(1); // one topic
    expected.write_str(&b"test".to_vec());
    expected.write_int32(1); // one partition
    expected.write_int32(0); // partition index
    expected.write_int64(10); // committed offset
    expected.write_int32(0); // committed leader epoch
    expected.write_nullable_str(&Some(Vec::new())); // committed metadata
    assert_eq!(bytes, expected.buffer);

    let mut w = BufferWriter::new();
    w.write_int32(0);
    w.write_int32(1);
    w.write_str(&b"test".to_vec());
    w.write_int32(1);
    w.write_int32(0);
    w.write_int16(0);
    let mut r = BufferReader::new(w.buffer);
    let resp = CommitOffsetResponse::get_from_bytes(&mut r).unwrap();
    assert_eq!(resp.topics[0].partitions[0].error_code, 0);
}

#[test]
fn find_coordinator_round_trip() {
    let request = FindCoordinatorRequest::new();
    assert_eq!(request.get_in_bytes(), vec![0x00, 0x00, 0x00]);

    let mut w = BufferWriter::new();
    w.write_int32(0);
    w.write_int16(0);
    w.write_nullable_str(&None);
    w.write_int32(5);
    w.write_str(&b"h".to_vec());
    w.write_int32(9092);
    let mut r = BufferReader::new(w.buffer);
    let resp = FindCoordinatorResponse::get_from_bytes(&mut r).unwrap();
    assert_eq!(resp.node_id, 5);
    assert_eq!(resp.host, b"h".to_vec());
    assert_eq!(resp.port, 9092);
}

#[test]
fn join_group_request_layout() {
    let request = JoinGroupRequest::new(b"g".to_vec());
    let bytes = request.get_in_bytes();
    let mut expected = BufferWriter::new();
    expected.write_str(&b"g".to_vec());
    expected.write_int32(6000);
    expected.write_int32(6000);
    expected.write_str(&Vec::new());
    expected.write_str(&b"consumer".to_vec());
    expected.write_int32(1); // one protocol
    expected.write_str(&Vec::new());
    let mut metadata = BufferWriter::new();
    metadata.write_int16(3);
    metadata.write_int32(1);
    metadata.write_str(&b"test".to_vec());
    metadata.write_bytes(&Vec::new());
    expected.write_bytes(&metadata.buffer);
    assert_eq!(bytes, expected.buffer);
}

#[test]
fn join_group_response_decodes_members() {
    let mut w = BufferWriter::new();
    w.write_int32(0);
    w.write_int16(0);
    w.write_int32(3);
    w.write_str(&b"range".to_vec());
    w.write_str(&b"m1".to_vec());
    w.write_str(&b"m1".to_vec());
    w.write_int32(1);
    w.write_str(&b"m1".to_vec());
    w.write_bytes(&b"md".to_vec());
    let mut r = BufferReader::new(w.buffer);
    let resp = JoinGroupResponse::get_from_bytes(&mut r).unwrap();
    assert_eq!(resp.generation_id, 3);
    assert_eq!(resp.members.len(), 1);
    assert_eq!(resp.members[0].metadata, b"md".to_vec());
    assert_eq!(r.remaining(), 0);
}

#[test]
fn response_build_rejects_truncated_payload() {
    let r = Response::<ApiVersionsResponse>::build(2, vec![0x00, 0x00]);
    assert!(r.is_err());
}
