use ipc_benchmark::shm_state::{BlockingSharedMemory, BlockingSharedMemoryDirect};
use ipc_benchmark::transport::{
    dev_shm_path, posix_name, BlockingTransport, BlockingTransportFactory, IpcError,
    IpcMechanism, TransportConfig, TransportFactory, TransportKind,
};

#[test]
fn test_blocking_transport_trait_exists() {
    #[allow(dead_code)]
    fn assert_is_blocking_transport<T: BlockingTransport>() {}
}

#[test]
fn test_factory_rejects_all_mechanism() {
    let result = BlockingTransportFactory::create(&IpcMechanism::All);
    assert!(result.is_err());
    if let Err(e) = result {
        let err_msg = e.message();
        assert!(err_msg.contains("All") || err_msg.contains("expand"));
    }
}

#[test]
fn test_factory_creates_uds_transport() {
    let result = BlockingTransportFactory::create(&IpcMechanism::UnixDomainSocket);
    assert!(
        result.is_ok(),
        "Factory should successfully create UDS transport"
    );
}

#[test]
fn test_factory_creates_tcp_transport() {
    let result = BlockingTransportFactory::create(&IpcMechanism::TcpSocket);
    assert!(
        result.is_ok(),
        "Factory should successfully create TCP transport"
    );
}

#[test]
fn test_factory_creates_shm_transport() {
    let result = BlockingTransportFactory::create(&IpcMechanism::SharedMemory);
    assert!(
        result.is_ok(),
        "Factory should successfully create Shared Memory transport"
    );
}

#[test]
fn test_factory_returns_not_implemented_for_pmq() {
    let result = BlockingTransportFactory::create(&IpcMechanism::PosixMessageQueue);
    assert!(result.is_err());
    if let Err(e) = result {
        let err_msg = e.message();
        assert!(err_msg.contains("not yet implemented"));
        assert!(err_msg.contains("Stage 3.4"));
    }
}

#[test]
fn factory_maps_each_mechanism_to_its_kind() {
    assert_eq!(
        BlockingTransportFactory::create(&IpcMechanism::UnixDomainSocket).unwrap(),
        TransportKind::UnixDomainSocket
    );
    assert_eq!(
        BlockingTransportFactory::create(&IpcMechanism::TcpSocket).unwrap(),
        TransportKind::TcpSocket
    );
    assert_eq!(
        BlockingTransportFactory::create(&IpcMechanism::SharedMemory).unwrap(),
        TransportKind::SharedMemory
    );
}

#[test]
fn async_factory_accepts_every_single_mechanism() {
    assert_eq!(
        TransportFactory::create(&IpcMechanism::PosixMessageQueue).unwrap(),
        TransportKind::PosixMessageQueue
    );
    assert_eq!(
        TransportFactory::create(&IpcMechanism::SharedMemory).unwrap(),
        TransportKind::SharedMemory
    );
    let err = TransportFactory::create(&IpcMechanism::All).unwrap_err();
    assert_eq!(
        err.message(),
        "IPC error: 'All' mechanism should be expanded before transport creation"
    );
}

#[test]
fn ipc_error_messages() {
    assert_eq!(
        IpcError::BackpressureTimeout.message(),
        "Timeout sending message due to backpressure"
    );
    assert_eq!(
        IpcError::Generic("boom".to_string()).message(),
        "IPC error: boom"
    );
}

#[test]
fn test_transport_config_default() {
    let config = TransportConfig::default();

    assert_eq!(config.buffer_size, 8192);
    assert_eq!(config.host, "127.0.0.1");
    assert_eq!(config.port, 8080);
    assert_eq!(config.socket_path, "/tmp/ipc_benchmark.sock");
    assert_eq!(config.shared_memory_name, "ipc_benchmark_shm");
    assert_eq!(config.max_connections, 16);
    assert_eq!(config.message_queue_depth, 10);
    assert_eq!(config.message_queue_name, "ipc_benchmark_pmq");
}

#[test]
fn posix_names_get_one_leading_slash() {
    assert_eq!(posix_name("seg"), "/seg");
    assert_eq!(posix_name("/seg"), "/seg");
    assert_eq!(posix_name(""), "/");
    assert_eq!(dev_shm_path("/seg"), "/dev/shm/seg");
    assert_eq!(dev_shm_path("seg"), "/dev/shm/seg");
}

#[test]
fn shared_memory_direct_test_new_creates_empty_transport() {
    let transport = BlockingSharedMemoryDirect::new();
    assert!(!transport.is_initialized());
    assert!(!transport.is_server());
}

#[test]
fn shared_memory_direct_test_default_creates_new_transport() {
    let transport = BlockingSharedMemoryDirect::default();
    assert!(!transport.is_initialized());
    assert!(!transport.is_server());
}

#[test]
fn test_close_without_init() {
    let mut transport = BlockingSharedMemoryDirect::new();
    let action = transport.close_blocking();
    assert!(!action.destroy_primitives);
    assert!(action.unlink_name.is_none());
}

#[test]
fn test_drop_without_init() {
    let _transport = BlockingSharedMemoryDirect::new();
}

#[test]
fn test_get_raw_message_ptr_uninit_returns_error() {
    let transport = BlockingSharedMemoryDirect::new();
    let result = transport.require_initialized();
    assert!(
        result.is_err(),
        "get_raw_message_ptr should fail before initialization"
    );
    let err_msg = result.unwrap_err().message();
    assert!(
        err_msg.contains("not initialized"),
        "Error should mention 'not initialized', got: {}",
        err_msg
    );
}

#[test]
fn direct_server_owning_segment_unlinks_on_close() {
    let mut t = BlockingSharedMemoryDirect::new();
    t.record_server_start("bench_seg", false, false);
    assert!(t.is_initialized());
    assert!(t.is_server());
    assert_eq!(t.owned_segment_name(), "/bench_seg");
    let action = t.close_blocking();
    assert!(action.destroy_primitives);
    assert_eq!(action.unlink_name.as_deref(), Some("/bench_seg"));
    let again = t.close_blocking();
    assert!(!again.destroy_primitives);
    assert!(again.unlink_name.is_none());
}

#[test]
fn direct_server_opening_existing_segment_owns_nothing() {
    let mut t = BlockingSharedMemoryDirect::new();
    t.record_server_start("/bench_seg", true, true);
    assert_eq!(t.owned_segment_name(), "");
    let action = t.close_blocking();
    assert!(!action.destroy_primitives);
    assert!(action.unlink_name.is_none());
}

#[test]
fn shared_memory_blocking_test_new_creates_empty_transport() {
    let transport = BlockingSharedMemory::new();
    assert!(!transport.is_initialized());
    assert!(!transport.is_server());
}

#[test]
fn shared_memory_blocking_test_default_creates_new_transport() {
    let transport = BlockingSharedMemory::default();
    assert!(!transport.is_initialized());
    assert!(!transport.is_server());
}

#[test]
fn ring_transport_server_unlinks_prefixed_name() {
    let mut t = BlockingSharedMemory::new();
    t.record_start("ring_seg", true);
    let action = t.close_blocking();
    assert_eq!(action.unlink_name.as_deref(), Some("/ring_seg"));
    let mut c = BlockingSharedMemory::new();
    c.record_start("ring_seg", false);
    assert!(c.close_blocking().unlink_name.is_none());
}

#[test]
fn ring_transport_refuses_send_and_receive_before_start() {
    for mechanism in [IpcMechanism::SharedMemory] {
        assert_eq!(
            BlockingTransportFactory::create(&mechanism).unwrap(),
            TransportKind::SharedMemory
        );
    }
    let mut t = BlockingSharedMemory::new();
    assert_eq!(
        t.require_for_send().unwrap_err().message(),
        "IPC error: Cannot send: shared memory not initialized. \
         Call start_server_blocking() or start_client_blocking() first."
    );
    assert_eq!(
        t.require_for_receive().unwrap_err().message(),
        "IPC error: Cannot receive: shared memory not initialized. \
         Call start_server_blocking() or start_client_blocking() first."
    );
    t.record_start("seg", true);
    assert!(t.require_for_send().is_ok());
    assert!(t.require_for_receive().is_ok());
    t.close_blocking();
    assert!(t.require_for_send().is_err());
}
