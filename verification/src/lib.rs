//! A verified codec and dispatch core for the Kafka wire protocol.
//!
//! The library covers the binary primitive codec (big-endian integers,
//! length-prefixed strings and byte blobs, zig-zag varints), message framing,
//! the request/response schemas of the supported APIs, the record batch
//! format, the metadata cache, and the broker routing decisions.  All byte
//! layouts are specified by spec-level encoders and decoders, and the
//! executable code is proved to match them exactly.  Network I/O lives
//! outside the library and hands it plain byte buffers.

pub mod api_keys;
pub mod api_versions;
pub mod buffer_reader;
pub mod buffer_utils;
pub mod buffer_writer;
pub mod consumer_client;
pub mod crc32c;
pub mod create_topic;
pub mod fetch;
pub mod find_coordinator;
pub mod header;
pub mod join_group;
pub mod kafka_client;
pub mod kafka_error_codes;
pub mod list_offsets;
pub mod metadata;
pub mod offset_commit;
pub mod produce;
pub mod record;
pub mod primitives;
pub mod request;
pub mod response;
pub mod wire;
