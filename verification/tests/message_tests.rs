use ipc_benchmark::frame::{
    check_uds_frame_len, decode_message_frame, encode_frame, encode_message_frame,
    frame_body_len, FrameError, UDS_MAX_MESSAGE_SIZE,
};
use ipc_benchmark::message::{stamp_timestamp, type_from_tag, type_tag, CodecError};
use ipc_benchmark::{Message, MessageType};

#[test]
fn test_message_creation() {
    let payload = vec![1, 2, 3, 4, 5];
    let message = Message::new(1, payload.clone(), MessageType::OneWay);

    assert_eq!(message.id, 1);
    assert_eq!(message.payload, payload);
    assert_eq!(message.message_type, MessageType::OneWay);
    assert!(message.timestamp > 0);
}

#[test]
fn test_message_serialization() {
    let payload = vec![1, 2, 3, 4, 5];
    let message = Message::new(1, payload, MessageType::Request);

    let bytes = message.to_bytes().unwrap();
    let deserialized = Message::from_bytes(&bytes).unwrap();

    assert_eq!(message.id, deserialized.id);
    assert_eq!(message.payload, deserialized.payload);
    assert_eq!(message.message_type, deserialized.message_type);
}

#[test]
fn message_size_counts_fields() {
    let m = Message::with_timestamp(7, 0, vec![0u8; 100], MessageType::Ping);
    assert_eq!(m.size(), 117);
    let empty = Message::with_timestamp(7, 0, Vec::new(), MessageType::Ping);
    assert_eq!(empty.size(), 17);
}

#[test]
fn encoding_layout_is_fixed_width_little_endian() {
    let mut m = Message::with_timestamp(0x0102, 0x0304, vec![9, 8], MessageType::Ping);
    m.one_way_latency_ns = 5;
    let b = m.to_bytes().unwrap();
    let mut expected = vec![0x02, 0x01, 0, 0, 0, 0, 0, 0];
    expected.extend_from_slice(&[0x04, 0x03, 0, 0, 0, 0, 0, 0]);
    expected.extend_from_slice(&[2, 0, 0, 0, 0, 0, 0, 0]);
    expected.extend_from_slice(&[9, 8]);
    expected.extend_from_slice(&[3, 0, 0, 0]);
    expected.extend_from_slice(&[5, 0, 0, 0, 0, 0, 0, 0]);
    assert_eq!(b, expected);
}

#[test]
fn roundtrip_keeps_every_field_and_ignores_trailing_bytes() {
    let mut m = Message::with_timestamp(u64::MAX, 77, vec![1, 2, 3], MessageType::Shutdown);
    m.one_way_latency_ns = 123;
    let mut b = m.to_bytes().unwrap();
    b.extend_from_slice(&[0xAA, 0xBB]);
    let d = Message::from_bytes(&b).unwrap();
    assert_eq!(d.id, u64::MAX);
    assert_eq!(d.timestamp, 77);
    assert_eq!(d.payload, vec![1, 2, 3]);
    assert_eq!(d.message_type, MessageType::Shutdown);
    assert_eq!(d.one_way_latency_ns, 123);
}

#[test]
fn truncated_bytes_are_malformed() {
    let m = Message::with_timestamp(1, 2, vec![1, 2, 3], MessageType::OneWay);
    let b = m.to_bytes().unwrap();
    for cut in 0..b.len() {
        assert_eq!(Message::from_bytes(&b[..cut]).unwrap_err(), CodecError::Malformed);
    }
}

#[test]
fn unknown_type_tag_is_reported() {
    let m = Message::with_timestamp(1, 2, vec![], MessageType::OneWay);
    let mut b = m.to_bytes().unwrap();
    b[24] = 9;
    assert_eq!(
        Message::from_bytes(&b).unwrap_err(),
        CodecError::UnknownMessageType(9)
    );
}

#[test]
fn type_tags_follow_declaration_order() {
    let all = [
        MessageType::OneWay,
        MessageType::Request,
        MessageType::Response,
        MessageType::Ping,
        MessageType::Pong,
        MessageType::Shutdown,
    ];
    for (i, t) in all.iter().enumerate() {
        assert_eq!(type_tag(*t), i as u32);
        assert_eq!(type_from_tag(i as u32), Some(*t));
    }
    assert_eq!(type_from_tag(6), None);
}

#[test]
fn stamping_rewrites_only_the_timestamp() {
    let m = Message::with_timestamp(5, 0, vec![4], MessageType::OneWay);
    let mut b = m.to_bytes().unwrap();
    stamp_timestamp(&mut b, 0x1122);
    let d = Message::from_bytes(&b).unwrap();
    assert_eq!(d.timestamp, 0x1122);
    assert_eq!(d.id, 5);
    assert_eq!(d.payload, vec![4]);
    let mut short = vec![1u8, 2, 3];
    stamp_timestamp(&mut short, 99);
    assert_eq!(short, vec![1, 2, 3]);
}

#[test]
fn receive_time_sets_one_way_latency_except_for_responses() {
    let mut m = Message::with_timestamp(1, 100, vec![], MessageType::OneWay);
    m.record_receive_time(350);
    assert_eq!(m.one_way_latency_ns, 250);
    let mut early = Message::with_timestamp(1, 100, vec![], MessageType::Request);
    early.record_receive_time(50);
    assert_eq!(early.one_way_latency_ns, 0);
    let mut resp = Message::with_timestamp(1, 100, vec![], MessageType::Response);
    resp.one_way_latency_ns = 42;
    resp.record_receive_time(999);
    assert_eq!(resp.one_way_latency_ns, 42);
}

#[test]
fn frame_is_length_prefixed() {
    let f = encode_frame(&[7, 8, 9]);
    assert_eq!(f, vec![3, 0, 0, 0, 7, 8, 9]);
    assert_eq!(frame_body_len(&f[..4]), 3);
    assert_eq!(encode_frame(&[]), vec![0, 0, 0, 0]);
}

#[test]
fn uds_frame_length_bounds() {
    assert_eq!(check_uds_frame_len(0), Err(FrameError::InvalidLength(0)));
    assert_eq!(check_uds_frame_len(1), Ok(1));
    assert_eq!(
        check_uds_frame_len(UDS_MAX_MESSAGE_SIZE as u32),
        Ok(UDS_MAX_MESSAGE_SIZE)
    );
    assert_eq!(
        check_uds_frame_len(UDS_MAX_MESSAGE_SIZE as u32 + 1),
        Err(FrameError::InvalidLength(UDS_MAX_MESSAGE_SIZE as u32 + 1))
    );
}

#[test]
fn message_frame_roundtrip() {
    let m = Message::with_timestamp(42, 0, vec![1, 2, 3, 4], MessageType::Request);
    let f = encode_message_frame(&m, 1_000);
    let n = frame_body_len(&f[..4]) as usize;
    assert_eq!(n, f.len() - 4);
    let got = decode_message_frame(&f[4..], 1_500).unwrap();
    assert_eq!(got.id, 42);
    assert_eq!(got.timestamp, 1_000);
    assert_eq!(got.payload, vec![1, 2, 3, 4]);
    assert_eq!(got.message_type, MessageType::Request);
    assert_eq!(got.one_way_latency_ns, 500);
}
