use std::sync::atomic::Ordering;
use ipc_benchmark::direct::{DirectChannel, DirectError, MessageSlot, MAX_PAYLOAD_SIZE};
use ipc_benchmark::ring_buffer::{
    DualRingBufferHeader, DualRingChannel, RingBuffer, RingError, SharedMemoryRingBuffer,
};
use ipc_benchmark::transport::ConnectionRole;
use ipc_benchmark::{Message, MessageType};

#[test]
fn ring_reads_back_writes_in_order() {
    let mut rb = RingBuffer::new(64);
    rb.write_data(&[1, 2, 3]).unwrap();
    rb.write_data(&[4]).unwrap();
    assert_eq!(rb.read_data().unwrap(), vec![1, 2, 3]);
    assert_eq!(rb.read_data().unwrap(), vec![4]);
    assert_eq!(rb.read_data(), Err(RingError::NoData));
    assert_eq!(rb.messages_written(), 2);
}

#[test]
fn ring_space_accounting() {
    let mut rb = RingBuffer::new(16);
    assert_eq!(rb.available_read_data(), 0);
    assert_eq!(rb.available_write_space(), 15);
    rb.write_data(&[0u8; 6]).unwrap();
    assert_eq!(rb.available_read_data(), 10);
    assert_eq!(rb.available_write_space(), 5);
}

#[test]
fn ring_refuses_frames_that_do_not_fit() {
    let mut rb = RingBuffer::new(16);
    assert_eq!(rb.write_data(&[0u8; 12]), Err(RingError::Full));
    rb.write_data(&[0u8; 11]).unwrap();
    assert_eq!(rb.write_data(&[]), Err(RingError::Full));
}

#[test]
fn ring_wraps_around_the_end() {
    let mut rb = RingBuffer::new(20);
    for round in 0u8..50 {
        let data = vec![round, round.wrapping_add(1), round.wrapping_add(2), round.wrapping_add(3), round.wrapping_add(4)];
        rb.write_data(&data).unwrap();
        assert_eq!(rb.read_data().unwrap(), data);
    }
    assert_eq!(rb.available_read_data(), 0);
}

#[test]
fn ring_zero_length_frame_is_refused_and_kept() {
    let mut rb = RingBuffer::new(32);
    rb.write_data(&[]).unwrap();
    assert_eq!(rb.read_data(), Err(RingError::InvalidLength(0)));
    assert_eq!(rb.available_read_data(), 4);
    assert_eq!(rb.read_any_frame().unwrap(), Vec::<u8>::new());
    assert_eq!(rb.available_read_data(), 0);
}

#[test]
fn blocking_ring_reports_wait_and_close() {
    let mut s = SharedMemoryRingBuffer::new(16);
    assert_eq!(s.try_read_blocking(), Err(RingError::WouldBlock));
    s.try_write_blocking(&[1, 2, 3, 4, 5, 6, 7, 8, 9, 10, 11]).unwrap();
    assert_eq!(s.try_write_blocking(&[1]), Err(RingError::WouldBlock));
    s.close();
    assert_eq!(s.try_write_blocking(&[1]), Err(RingError::Closed));
    assert_eq!(
        s.try_read_blocking().unwrap(),
        vec![1, 2, 3, 4, 5, 6, 7, 8, 9, 10, 11]
    );
    assert_eq!(s.try_read_blocking(), Err(RingError::Closed));
}

#[test]
fn dual_header_starts_clear() {
    let h = DualRingBufferHeader::new(4096);
    assert_eq!(h.buffer_capacity, 4096);
    assert!(!h.server_ready && !h.client_ready && !h.shutdown);
}

#[test]
fn slot_starts_empty() {
    let s = MessageSlot::new();
    assert!(!s.ready);
    assert_eq!(s.payload.len(), 0);
}

#[test]
fn direct_exchange_delivers_message_and_latency() {
    let mut c = DirectChannel::new();
    let mut payload = vec![0u8; 100];
    payload[0..10].copy_from_slice(&[1, 2, 3, 4, 5, 6, 7, 8, 9, 10]);
    let msg = Message::with_timestamp(42, 0, payload, MessageType::OneWay);
    assert_eq!(c.try_receive(true, 5).unwrap_err(), DirectError::ClientNotReady);
    c.mark_client_ready();
    assert_eq!(c.try_receive(true, 5).unwrap_err(), DirectError::NoMessage);
    c.try_send(false, &msg, 1_000).unwrap();
    assert_eq!(c.try_send(false, &msg, 1_001), Err(DirectError::SlotBusy));
    let got = c.try_receive(true, 1_250).unwrap();
    assert_eq!(got.id, 42);
    assert_eq!(got.payload.len(), 100);
    assert_eq!(&got.payload[0..10], &[1, 2, 3, 4, 5, 6, 7, 8, 9, 10]);
    assert_eq!(got.timestamp, 1_000);
    assert_eq!(got.one_way_latency_ns, 250);
    assert_eq!(c.try_receive(true, 1_300).unwrap_err(), DirectError::NoMessage);
}

#[test]
fn direct_response_keeps_server_latency() {
    let mut c = DirectChannel::new();
    let mut resp = Message::with_timestamp(7, 0, vec![], MessageType::Response);
    resp.one_way_latency_ns = 321;
    c.try_send(true, &resp, 10).unwrap();
    let got = c.try_receive(false, 5_000).unwrap();
    assert_eq!(got.one_way_latency_ns, 321);
    assert_eq!(got.message_type, MessageType::Response);
}

#[test]
fn direct_oversized_payload_is_refused() {
    let mut c = DirectChannel::new();
    let big = Message::with_timestamp(1, 0, vec![0u8; MAX_PAYLOAD_SIZE + 1], MessageType::OneWay);
    assert_eq!(
        c.try_send(false, &big, 0),
        Err(DirectError::PayloadTooLarge(MAX_PAYLOAD_SIZE + 1))
    );
    let fits = Message::with_timestamp(1, 0, vec![0u8; MAX_PAYLOAD_SIZE], MessageType::OneWay);
    assert!(c.try_send(false, &fits, 0).is_ok());
}

#[test]
fn test_sync_flags_atomic() {
    let ready = std::sync::atomic::AtomicI32::new(0);
    let client_ready = std::sync::atomic::AtomicI32::new(0);

    assert_eq!(ready.load(Ordering::Acquire), 0);
    assert_eq!(client_ready.load(Ordering::Acquire), 0);

    ready.store(1, Ordering::Release);
    assert_eq!(ready.load(Ordering::Acquire), 1);

    let result = client_ready.compare_exchange(0, 1, Ordering::AcqRel, Ordering::Acquire);
    assert!(result.is_ok());
    assert_eq!(client_ready.load(Ordering::Acquire), 1);

    ready.store(0, Ordering::Release);
    client_ready.store(0, Ordering::Release);
    assert_eq!(ready.load(Ordering::Acquire), 0);
    assert_eq!(client_ready.load(Ordering::Acquire), 0);
}

#[test]
fn direct_error_texts() {
    assert_eq!(
        DirectError::SlotBusy.message(false),
        "Timeout waiting for receiver to consume previous message"
    );
    assert_eq!(
        DirectError::SlotBusy.message(true),
        "Timeout waiting for receiver to consume message"
    );
    assert_eq!(DirectError::NoMessage.message(false), "Timeout waiting for message");
    assert_eq!(
        DirectError::ClientNotReady.message(false),
        "Timeout waiting for client to connect after 10s. Is the client process running?"
    );
    assert_eq!(
        DirectError::PayloadTooLarge(9000).message(false),
        "Message payload size 9000 exceeds MAX_PAYLOAD_SIZE 8192 for --shm-direct mode. \
         Use -m shm without --shm-direct for larger messages, or reduce message size."
    );
}

#[test]
fn direct_directions_are_independent() {
    let mut c = DirectChannel::new();
    c.mark_client_ready();
    let a = Message::with_timestamp(1, 0, vec![1], MessageType::Request);
    let b = Message::with_timestamp(2, 0, vec![2], MessageType::Response);
    c.try_send(false, &a, 10).unwrap();
    c.try_send(true, &b, 20).unwrap();
    let at_client = c.try_receive(false, 30).unwrap();
    assert_eq!(at_client.id, 2);
    assert_eq!(at_client.payload, vec![2]);
    let at_server = c.try_receive(true, 40).unwrap();
    assert_eq!(at_server.id, 1);
    assert_eq!(at_server.one_way_latency_ns, 30);
}

#[test]
fn dual_ring_channel_routes_by_role() {
    let mut c = DualRingChannel::new(64);
    assert!(!c.peer_ready(ConnectionRole::Server));
    assert!(!c.peer_ready(ConnectionRole::Client));
    c.mark_ready(ConnectionRole::Server);
    assert!(c.peer_ready(ConnectionRole::Client));
    assert!(!c.peer_ready(ConnectionRole::Server));
    c.mark_ready(ConnectionRole::Client);
    assert!(c.peer_ready(ConnectionRole::Server));

    c.send(ConnectionRole::Client, b"ping").unwrap();
    c.send(ConnectionRole::Server, b"pong!").unwrap();
    assert_eq!(c.receive(ConnectionRole::Client).unwrap(), b"pong!".to_vec());
    assert_eq!(c.receive(ConnectionRole::Server).unwrap(), b"ping".to_vec());
    assert_eq!(c.receive(ConnectionRole::Server), Err(RingError::NoData));
    assert_eq!(c.send(ConnectionRole::Client, &[0u8; 60]), Err(RingError::Full));
    assert!(c.send(ConnectionRole::Client, &[0u8; 59]).is_ok());
}
