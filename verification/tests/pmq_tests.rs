use ipc_benchmark::pmq::{PosixMessageQueueTransport, QueueSendStep};
use ipc_benchmark::retry::TRANSFER_TIMEOUT_NS;
use ipc_benchmark::transport::TransportState;
use ipc_benchmark::pmq::BlockingPosixMessageQueue;
use ipc_benchmark::transport::TransportConfig;

#[test]
fn posix_message_queue_blocking_test_default_creates_new_transport() {
    let transport = BlockingPosixMessageQueue::default();
    assert!(transport.queue_name_base.is_empty());
    assert!(!transport.send_open);
    assert!(!transport.receive_open);
    assert!(!transport.is_creator);
}

#[test]
fn test_with_custom_buffer_size() {
    let mut server = BlockingPosixMessageQueue::new();
    let mut config = TransportConfig::default();
    config.message_queue_name = "test_custom_limits".to_string();
    config.buffer_size = 1024;
    server.configure(&config);
    server.record_opened(true);
    assert!(server.max_msg_size > 0);
    assert_eq!(server.max_msg_size, 1024);
    let release = server.close_blocking();
    assert!(release.close_send && release.close_receive);
}

#[test]
fn test_client_close_without_connect() {
    let mut client = BlockingPosixMessageQueue::new();
    let release = client.close_blocking();
    assert!(!release.close_send);
    assert!(!release.close_receive);
    assert!(release.unlink.is_none());
}

#[test]
fn test_send_on_uninit_transport_fails() {
    let transport = BlockingPosixMessageQueue::new();
    let result = transport.require_send_queue();
    assert!(result.is_err(), "send on uninitialized PMQ transport should fail");
    assert_eq!(
        result.unwrap_err().message(),
        "IPC error: Cannot send: message queue not initialized. \
         Call start_server_blocking() or start_client_blocking() first."
    );
}

#[test]
fn test_receive_on_uninit_transport_fails() {
    let transport = BlockingPosixMessageQueue::new();
    let result = transport.require_receive_queue();
    assert!(result.is_err(), "receive on uninitialized PMQ should fail");
}

#[test]
fn test_close_idempotent_uninit() {
    let mut transport = BlockingPosixMessageQueue::new();
    transport.close_blocking();
    transport.close_blocking();
    assert!(!transport.send_open);
    assert!(!transport.receive_open);
}

#[test]
fn server_close_unlinks_both_queues_client_close_does_not() {
    let mut config = TransportConfig::default();
    config.message_queue_name = "bench".to_string();

    let mut server = BlockingPosixMessageQueue::new();
    server.configure(&config);
    server.record_opened(true);
    assert!(server.require_send_queue().is_ok());
    assert!(server.require_receive_queue().is_ok());
    let release = server.close_blocking();
    assert_eq!(
        release.unlink,
        Some(("/bench_req".to_string(), "/bench_resp".to_string()))
    );
    assert!(server.require_send_queue().is_err());

    let mut client = BlockingPosixMessageQueue::new();
    client.configure(&config);
    client.record_opened(false);
    let release = client.close_blocking();
    assert!(release.close_send && release.close_receive);
    assert!(release.unlink.is_none());
}

#[test]
fn async_queue_lifecycle_and_send_guard() {
    let mut t = PosixMessageQueueTransport::new();
    assert_eq!(
        t.require_send_queue().unwrap_err().message(),
        "IPC error: Send queue not initialized"
    );
    assert_eq!(
        t.require_receive_queue().unwrap_err().message(),
        "IPC error: Receive queue not initialized"
    );
    let mut config = TransportConfig::default();
    config.message_queue_name = "bench".to_string();
    t.configure(&config, true);
    t.record_connected();
    assert_eq!(t.state, TransportState::Connected);
    assert!(t.require_send_queue().is_ok());
    let release = t.close();
    assert_eq!(t.state, TransportState::Disconnected);
    assert!(release.close_send && release.close_receive);
    assert_eq!(
        release.unlink,
        Some(("/bench_req".to_string(), "/bench_resp".to_string()))
    );
}

#[test]
fn async_queue_send_reports_backpressure_and_times_out() {
    let mut t = PosixMessageQueueTransport::new();
    let mut bp = false;
    assert_eq!(t.send_step(&mut bp, true, 0), QueueSendStep::Sent(false));
    assert!(!bp);
    assert_eq!(
        t.send_step(&mut bp, false, 1_000),
        QueueSendStep::WaitWritable { warn: true, remaining_ns: TRANSFER_TIMEOUT_NS - 1_000 }
    );
    assert!(bp);
    assert_eq!(
        t.send_step(&mut bp, false, 2_000),
        QueueSendStep::WaitWritable { warn: false, remaining_ns: TRANSFER_TIMEOUT_NS - 2_000 }
    );
    assert_eq!(t.send_step(&mut bp, true, 3_000), QueueSendStep::Sent(true));
    let mut bp2 = false;
    assert_eq!(
        t.send_step(&mut bp2, false, TRANSFER_TIMEOUT_NS),
        QueueSendStep::TimedOut { warn: false }
    );
}
