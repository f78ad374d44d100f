//! Behaviour of the three extension codecs on concrete buffers.

use modbus_ext::device_id::{
    DeviceConformity, DeviceIdentificationCode, DeviceIdentificationCodec,
};
use modbus_ext::errors::DecodeError;
use modbus_ext::fifo::FifoQueueCodec;
use modbus_ext::file_record::FileRecordCodec;
use modbus_ext::words::WordCodec;

#[test]
fn word_codec_round_trip() {
    assert_eq!(WordCodec::encode_be(0x1234), (0x12, 0x34));
    assert_eq!(WordCodec::decode_be(0x12, 0x34), 0x1234);
    assert_eq!(WordCodec::encode_be(0x00FF), (0x00, 0xFF));
    assert_eq!(WordCodec::decode_be(0xFF, 0x00), 0xFF00);
}

#[test]
fn file_record_build_request_layout() {
    // Length byte 7 covering the seven bytes that follow it.
    let bytes = FileRecordCodec::build_request(1, 0, 2);
    assert_eq!(bytes, vec![0x07, 0x06, 0x00, 0x01, 0x00, 0x00, 0x00, 0x02]);
}

#[test]
fn file_record_build_request_big_endian() {
    let bytes = FileRecordCodec::build_request(0x1234, 0x00FF, 0x0A0B);
    assert_eq!(bytes, vec![0x07, 0x06, 0x12, 0x34, 0x00, 0xFF, 0x0A, 0x0B]);
}

#[test]
fn file_record_parse_rejects_short_buffers() {
    // Every buffer shorter than five bytes fails with TooShort.
    for len in 0..5usize {
        let payload = vec![0xAAu8; len];
        let r = FileRecordCodec::parse_response(&payload);
        assert_eq!(r, Err(DecodeError::TooShort));
    }
}

#[test]
fn file_record_parse_minimal() {
    let payload = [5u8, 2, 6, 0xAB, 0xCD];
    let record = FileRecordCodec::parse_response(&payload).unwrap();
    assert_eq!(record.resp_data_len, 5);
    assert_eq!(record.file_resp_len, 2);
    assert_eq!(record.ref_type, 6);
    // Words are read from offset 2 in two-byte big-endian strides; the lone
    // trailing byte belongs to no word.
    assert_eq!(record.record_data, vec![0x06AB]);
}

#[test]
fn file_record_round_trip_word_count() {
    // A synthetic response shaped as build_request implies: three header
    // bytes, then the requested number of words, two bytes each.
    let record_length = 2u16;
    let payload = [4u8, 5, 6, 0x12, 0x34, 0x56, 0x78];
    assert_eq!(payload.len(), 3 + 2 * record_length as usize);
    let record = FileRecordCodec::parse_response(&payload).unwrap();
    assert_eq!(record.record_data.len(), record_length as usize);
    assert_eq!(record.record_data, vec![0x0612, 0x3456]);
}

#[test]
fn file_record_decode_idempotent() {
    let payload = [9u8, 8, 6, 1, 2, 3, 4];
    let first = FileRecordCodec::parse_response(&payload);
    let second = FileRecordCodec::parse_response(&payload);
    assert_eq!(first, second);
}

#[test]
fn fifo_build_request_big_endian() {
    assert_eq!(FifoQueueCodec::build_request(0xABCD), vec![0xAB, 0xCD]);
    assert_eq!(FifoQueueCodec::build_request(7), vec![0x00, 0x07]);
}

#[test]
fn fifo_parse_header_then_words() {
    // Header [0, 0, 0, N] followed by N big-endian words yields the words in
    // order.
    let payload = [0u8, 0, 0, 2, 0x12, 0x34, 0xAB, 0xCD];
    assert_eq!(FifoQueueCodec::parse_response(&payload), vec![0x1234, 0xABCD]);
}

#[test]
fn fifo_parse_short_buffers_yield_nothing() {
    assert_eq!(FifoQueueCodec::parse_response(&[]), Vec::<u16>::new());
    assert_eq!(FifoQueueCodec::parse_response(&[1, 2, 3]), Vec::<u16>::new());
    assert_eq!(FifoQueueCodec::parse_response(&[1, 2, 3, 4]), Vec::<u16>::new());
}

#[test]
fn fifo_parse_ignores_lone_trailing_byte() {
    let payload = [0u8, 0, 0, 1, 0x12, 0x34, 0x56];
    assert_eq!(FifoQueueCodec::parse_response(&payload), vec![0x1234]);
}

#[test]
fn fifo_parse_maximum_queue() {
    // The device-imposed limit is 31 entries; all of them come back in order.
    let mut payload = vec![0u8, 0x3E, 0, 31];
    for i in 0u16..31 {
        payload.extend_from_slice(&[0, i as u8]);
    }
    let words = FifoQueueCodec::parse_response(&payload);
    assert_eq!(words.len(), 31);
    assert_eq!(words, (0u16..31).collect::<Vec<u16>>());
}

#[test]
fn device_id_parse_longest_value() {
    // One object whose value uses the full one-byte length range.
    let mut payload = vec![0x0E, 0x01, 0x01, 0x00, 0x00, 0x01, 0x2A, 0xFF];
    payload.extend_from_slice(&[b'z'; 255]);
    let d = DeviceIdentificationCodec::parse_response(&payload).unwrap();
    assert_eq!(d.objects.len(), 1);
    assert_eq!(d.objects[0].id, 0x2A);
    assert_eq!(d.objects[0].length, 255);
    assert_eq!(d.objects[0].value, vec![b'z'; 255]);
}

#[test]
fn fifo_decode_idempotent() {
    let payload = [0u8, 0, 0, 1, 0xBE, 0xEF];
    assert_eq!(
        FifoQueueCodec::parse_response(&payload),
        FifoQueueCodec::parse_response(&payload)
    );
}

#[test]
fn device_id_build_request_basic() {
    let bytes = DeviceIdentificationCodec::build_request(DeviceIdentificationCode::Basic, 0);
    assert_eq!(bytes, vec![0x0E, 0x01, 0x00]);
}

#[test]
fn device_id_build_request_codes() {
    let bytes = DeviceIdentificationCodec::build_request(DeviceIdentificationCode::Regular, 3);
    assert_eq!(bytes, vec![0x0E, 0x02, 0x03]);
    let bytes = DeviceIdentificationCodec::build_request(DeviceIdentificationCode::Extended, 1);
    assert_eq!(bytes, vec![0x0E, 0x03, 0x01]);
    let bytes = DeviceIdentificationCodec::build_request(DeviceIdentificationCode::Individual, 9);
    assert_eq!(bytes, vec![0x0E, 0x04, 0x09]);
    let bytes = DeviceIdentificationCodec::build_request(DeviceIdentificationCode::Unknown, 0);
    assert_eq!(bytes, vec![0x0E, 0xFF, 0x00]);
}

#[test]
fn device_id_code_decode_swaps_regular_and_extended() {
    // The decode direction is deliberately not the inverse of the encode
    // direction: byte 2 decodes to Extended and byte 3 to Regular, while
    // Regular is sent as 2 and Extended as 3.
    assert_eq!(DeviceIdentificationCode::from_byte(1), DeviceIdentificationCode::Basic);
    assert_eq!(DeviceIdentificationCode::from_byte(2), DeviceIdentificationCode::Extended);
    assert_eq!(DeviceIdentificationCode::from_byte(3), DeviceIdentificationCode::Regular);
    assert_eq!(DeviceIdentificationCode::from_byte(4), DeviceIdentificationCode::Individual);
    assert_eq!(DeviceIdentificationCode::from_byte(0), DeviceIdentificationCode::Unknown);
    assert_eq!(DeviceIdentificationCode::from_byte(0xFF), DeviceIdentificationCode::Unknown);
    assert_eq!(DeviceIdentificationCode::Regular.to_byte(), 2);
    assert_eq!(DeviceIdentificationCode::Extended.to_byte(), 3);
}

#[test]
fn conformity_decode_mapping() {
    // Unlike the identification code, the conformity decode carries no swap:
    // the six defined bytes map to the levels in declared order.
    assert_eq!(DeviceConformity::from_byte(1), DeviceConformity::Basic);
    assert_eq!(DeviceConformity::from_byte(2), DeviceConformity::Regular);
    assert_eq!(DeviceConformity::from_byte(3), DeviceConformity::Extended);
    assert_eq!(DeviceConformity::from_byte(0x81), DeviceConformity::BasicWithIndividual);
    assert_eq!(DeviceConformity::from_byte(0x82), DeviceConformity::RegularWithIndividual);
    assert_eq!(DeviceConformity::from_byte(0x83), DeviceConformity::ExtendedWithIndividual);
    assert_eq!(DeviceConformity::from_byte(0x50), DeviceConformity::Unknown);
    assert_eq!(DeviceConformity::from_byte(0), DeviceConformity::Unknown);
}

#[test]
fn device_id_parse_two_objects() {
    // Header: mei_type, id code, conformity, more_follows, next id, count 2.
    let mut payload = vec![0x0E, 0x01, 0x01, 0x00, 0x00, 0x02];
    payload.extend_from_slice(&[0x00, 0x03]);
    payload.extend_from_slice(b"abc");
    payload.extend_from_slice(&[0x01, 0x02]);
    payload.extend_from_slice(b"de");
    let d = DeviceIdentificationCodec::parse_response(&payload).unwrap();
    assert_eq!(d.mei_type, 0x0E);
    assert_eq!(d.read_device_id_code, DeviceIdentificationCode::Basic);
    assert_eq!(d.conformity_level, DeviceConformity::Basic);
    assert_eq!(d.more_follows, 0);
    assert_eq!(d.next_object_id, 0);
    assert_eq!(d.number_of_objects, 2);
    assert_eq!(d.objects.len(), 2);
    assert_eq!(d.objects[0].id, 0);
    assert_eq!(d.objects[0].length, 3);
    assert_eq!(d.objects[0].value, b"abc".to_vec());
    assert_eq!(d.objects[1].id, 1);
    assert_eq!(d.objects[1].length, 2);
    assert_eq!(d.objects[1].value, b"de".to_vec());
}

#[test]
fn device_id_parse_truncated_object_list() {
    // The header claims three objects but only one complete frame follows:
    // a typed Truncated failure, not a panic and not a partial list.
    let mut payload = vec![0x0E, 0x01, 0x01, 0x00, 0x00, 0x03];
    payload.extend_from_slice(&[0x00, 0x03]);
    payload.extend_from_slice(b"abc");
    let r = DeviceIdentificationCodec::parse_response(&payload);
    assert_eq!(r, Err(DecodeError::Truncated));
}

#[test]
fn device_id_parse_truncated_header() {
    let payload = [0x0E, 0x01, 0x01, 0x00, 0x00];
    let r = DeviceIdentificationCodec::parse_response(&payload);
    assert_eq!(r, Err(DecodeError::Truncated));
}

#[test]
fn device_id_parse_truncated_value() {
    // One object whose declared length exceeds the remaining bytes.
    let payload = [0x0E, 0x01, 0x01, 0x00, 0x00, 0x01, 0x00, 0x05, b'a', b'b'];
    let r = DeviceIdentificationCodec::parse_response(&payload);
    assert_eq!(r, Err(DecodeError::Truncated));
}

#[test]
fn device_id_parse_zero_objects() {
    let payload = [0x0E, 0x02, 0x03, 0x00, 0x00, 0x00];
    let d = DeviceIdentificationCodec::parse_response(&payload).unwrap();
    assert_eq!(d.read_device_id_code, DeviceIdentificationCode::Extended);
    assert_eq!(d.conformity_level, DeviceConformity::Extended);
    assert_eq!(d.objects.len(), 0);
}

#[test]
fn device_id_parse_empty_value_and_trailing_bytes() {
    // A zero-length value is a valid frame; bytes after the declared objects
    // are ignored.
    let payload = [0x0E, 0x01, 0x01, 0x00, 0x00, 0x01, 0x07, 0x00, 0xAA, 0xBB];
    let d = DeviceIdentificationCodec::parse_response(&payload).unwrap();
    assert_eq!(d.objects.len(), 1);
    assert_eq!(d.objects[0].id, 7);
    assert_eq!(d.objects[0].length, 0);
    assert_eq!(d.objects[0].value, Vec::<u8>::new());
}

#[test]
fn device_id_decode_idempotent() {
    let payload = [0x0E, 0x01, 0x01, 0x00, 0x00, 0x01, 0x00, 0x01, b'x'];
    assert_eq!(
        DeviceIdentificationCodec::parse_response(&payload),
        DeviceIdentificationCodec::parse_response(&payload)
    );
}
