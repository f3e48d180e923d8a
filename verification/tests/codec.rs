use kafka_wire::buffer_reader::BufferReader;
use kafka_wire::buffer_utils::BufferUtils;
use kafka_wire::buffer_writer::BufferWriter;
use kafka_wire::crc32c::crc32c_compute;
use kafka_wire::primitives::{KafkaNullableString, KafkaString, KafkaValue, VarInt};

#[test]
fn int_round_trips() {
    let mut w = BufferWriter::new();
    w.write_bool(true);
    w.write_bool(false);
    w.write_int8(-1);
    w.write_int8(i8::MIN);
    w.write_int16(-2);
    w.write_int16(i16::MAX);
    w.write_int32(-3);
    w.write_int32(i32::MIN);
    w.write_int64(-4);
    w.write_int64(i64::MAX);
    let mut r = BufferReader::new(w.buffer);
    assert_eq!(r.read_bool().unwrap(), true);
    assert_eq!(r.read_bool().unwrap(), false);
    assert_eq!(r.read_int8().unwrap(), -1);
    assert_eq!(r.read_int8().unwrap(), i8::MIN);
    assert_eq!(r.read_int16().unwrap(), -2);
    assert_eq!(r.read_int16().unwrap(), i16::MAX);
    assert_eq!(r.read_int32().unwrap(), -3);
    assert_eq!(r.read_int32().unwrap(), i32::MIN);
    assert_eq!(r.read_int64().unwrap(), -4);
    assert_eq!(r.read_int64().unwrap(), i64::MAX);
    assert_eq!(r.remaining(), 0);
}

#[test]
fn big_endian_layout() {
    let mut w = BufferWriter::new();
    w.write_int32(0x0102_0304);
    assert_eq!(w.buffer, vec![0x01, 0x02, 0x03, 0x04]);
    let mut w = BufferWriter::new();
    w.write_int16(-1);
    assert_eq!(w.buffer, vec![0xFF, 0xFF]);
    let mut w = BufferWriter::new();
    w.write_int64(1);
    assert_eq!(w.buffer, vec![0, 0, 0, 0, 0, 0, 0, 1]);
}

#[test]
fn string_round_trip() {
    let mut w = BufferWriter::new();
    w.write_str(&b"hello".to_vec());
    assert_eq!(w.buffer[..2], [0x00, 0x05]);
    let mut r = BufferReader::new(w.buffer);
    assert_eq!(r.read_str().unwrap(), b"hello".to_vec());
}

#[test]
fn empty_string_round_trip() {
    let mut w = BufferWriter::new();
    w.write_str(&Vec::new());
    assert_eq!(w.buffer, vec![0x00, 0x00]);
    let mut r = BufferReader::new(w.buffer);
    assert_eq!(r.read_str().unwrap(), Vec::<u8>::new());
}

#[test]
fn nullable_string_round_trip() {
    let mut w = BufferWriter::new();
    w.write_nullable_str(&None);
    w.write_nullable_str(&Some(b"x".to_vec()));
    assert_eq!(w.buffer[..2], [0xFF, 0xFF]);
    let mut r = BufferReader::new(w.buffer);
    assert_eq!(r.read_nullable_str().unwrap(), None);
    assert_eq!(r.read_nullable_str().unwrap(), Some(b"x".to_vec()));
}

#[test]
fn negative_string_length_is_malformed() {
    let mut r = BufferReader::new(vec![0xFF, 0xFF]);
    assert!(r.read_str().is_err());
    assert_eq!(r.pos, 0);
}

#[test]
fn truncated_input_is_malformed() {
    let mut r = BufferReader::new(vec![0x00, 0x00, 0x01]);
    assert!(r.read_int32().is_err());
    let mut r = BufferReader::new(vec![0x00, 0x05, 0x61]);
    assert!(r.read_str().is_err());
}

#[test]
fn int_array_round_trip() {
    let mut w = BufferWriter::new();
    w.write_array_int(&vec![5, -7, 9]);
    assert_eq!(w.buffer[..4], [0, 0, 0, 3]);
    let mut r = BufferReader::new(w.buffer);
    assert_eq!(r.read_array_int().unwrap(), vec![5, -7, 9]);
}

#[test]
fn null_array_count_decodes_as_empty() {
    // an i32 array count of -1 denotes the null array
    let mut r = BufferReader::new(vec![0xFF, 0xFF, 0xFF, 0xFF]);
    assert_eq!(r.read_array_int().unwrap(), Vec::<i32>::new());
    assert_eq!(r.remaining(), 0);
}

#[test]
fn bytes_round_trip() {
    let mut w = BufferWriter::new();
    w.write_bytes(&b"blob".to_vec());
    let mut r = BufferReader::new(w.buffer);
    assert_eq!(r.read_bytes().unwrap(), b"blob".to_vec());
}

#[test]
fn uvarint_of_300_is_ac_02() {
    let mut w = BufferWriter::new();
    w.write_uvarint(300);
    assert_eq!(w.buffer, vec![0xAC, 0x02]);
}

#[test]
fn zigzag_varint_of_300_is_d8_04() {
    // zig-zag of 300 is 600 = 0b10_0101_1000, so the groups are
    // 0b1011000 and 0b100: D8 04 on the wire.
    let mut w = BufferWriter::new();
    w.write_varint(300);
    assert_eq!(w.buffer, vec![0xD8, 0x04]);
}

#[test]
fn varint_small_values() {
    let mut w = BufferWriter::new();
    w.write_varint(0);
    w.write_varint(-1);
    w.write_varint(1);
    w.write_varint(-2);
    assert_eq!(w.buffer, vec![0x00, 0x01, 0x02, 0x03]);
}

#[test]
fn varint_round_trip_boundaries() {
    for n in [0, 1, -1, 63, 64, -64, -65, 300, -300, i32::MAX, i32::MIN] {
        let mut w = BufferWriter::new();
        w.write_varint(n);
        let mut r = BufferReader::new(w.buffer);
        assert_eq!(BufferUtils::read_varint(&mut r).unwrap(), n, "value {}", n);
        assert_eq!(r.remaining(), 0);
    }
}

#[test]
fn uvarint_round_trip_boundaries() {
    for u in [0u32, 1, 127, 128, 16383, 16384, 300, u32::MAX] {
        let mut w = BufferWriter::new();
        w.write_uvarint(u);
        let mut r = BufferReader::new(w.buffer);
        assert_eq!(BufferUtils::read_uvarint(&mut r).unwrap(), u, "value {}", u);
        assert_eq!(r.remaining(), 0);
    }
}

#[test]
fn uvarint_too_long_is_malformed() {
    // six continuation bytes can never be a 32-bit varint
    let mut r = BufferReader::new(vec![0x80, 0x80, 0x80, 0x80, 0x80, 0x01]);
    assert!(BufferUtils::read_uvarint(&mut r).is_err());
    assert_eq!(r.pos, 0);
}

#[test]
fn typed_primitives_round_trip() {
    let mut w = BufferWriter::new();
    VarInt(-123).write_to_buffer(&mut w);
    KafkaValue(b"v".to_vec()).write_to_buffer(&mut w);
    KafkaString(b"s".to_vec()).write_to_buffer(&mut w);
    KafkaNullableString(None).write_to_buffer(&mut w);
    let mut r = BufferReader::new(w.buffer);
    assert_eq!(VarInt::read_from_buffer(&mut r).unwrap().0, -123);
    assert_eq!(KafkaValue::read_from_buffer(&mut r).unwrap().0, b"v".to_vec());
    assert_eq!(KafkaString::read_from_buffer(&mut r).unwrap().0, b"s".to_vec());
    assert!(KafkaNullableString::read_from_buffer(&mut r).unwrap().0.is_none());
}

fn reference_crc32c(data: &[u8]) -> u32 {
    let mut crc: u32 = 0xFFFF_FFFF;
    for &b in data {
        crc ^= b as u32;
        for _ in 0..8 {
            if crc & 1 == 1 {
                crc = (crc >> 1) ^ 0x82F6_3B78;
            } else {
                crc >>= 1;
            }
        }
    }
    crc ^ 0xFFFF_FFFF
}

#[test]
fn crc32c_matches_known_vector() {
    // the classic check value for CRC-32C over "123456789"
    assert_eq!(crc32c_compute(&b"123456789".to_vec()), 0xE306_9283);
    assert_eq!(crc32c_compute(&Vec::new()), 0);
    let data = b"kafka record batch".to_vec();
    assert_eq!(crc32c_compute(&data), reference_crc32c(&data));
}
