use ipc_benchmark::standalone::{
    build_standalone_transport_config, dispatch_server_message, format_latency_buffer,
    server_step, should_buffer_latency, verbosity_to_level, warmup_message_type,
    EndpointOverrides, LogLevel,
};
use ipc_benchmark::standalone::{apply_server_overrides, internal_server_step, CANARY_ID};
use ipc_benchmark::transport::{IpcMechanism, TransportConfig};
use ipc_benchmark::{Message, MessageType};

fn overrides() -> EndpointOverrides {
    EndpointOverrides {
        host: "127.0.0.1".to_string(),
        port: 8080,
        pmq_priority: 0,
        socket_path: None,
        shared_memory_name: None,
        message_queue_name: None,
        buffer_size: None,
    }
}

#[test]
fn test_build_standalone_transport_config_defaults() {
    let config = build_standalone_transport_config(&overrides());

    assert_eq!(config.host, "127.0.0.1");
    assert_eq!(config.port, 8080);
    assert_eq!(config.shared_memory_name, "ipc_benchmark_shm");
    assert_eq!(config.message_queue_name, "ipc_benchmark_pmq");
    assert_eq!(config.pmq_priority, 0);
}

#[test]
fn test_build_standalone_transport_config_overrides() {
    let args = EndpointOverrides {
        host: "0.0.0.0".to_string(),
        port: 9999,
        pmq_priority: 3,
        socket_path: Some("/tmp/custom.sock".to_string()),
        shared_memory_name: Some("custom_shm".to_string()),
        message_queue_name: Some("custom_pmq".to_string()),
        buffer_size: Some(65536),
    };
    let config = build_standalone_transport_config(&args);

    assert_eq!(config.host, "0.0.0.0");
    assert_eq!(config.port, 9999);
    assert_eq!(config.socket_path, "/tmp/custom.sock");
    assert_eq!(config.shared_memory_name, "custom_shm");
    assert_eq!(config.message_queue_name, "custom_pmq");
    assert_eq!(config.buffer_size, 65536);
    assert_eq!(config.pmq_priority, 3);
}

#[test]
fn test_build_standalone_transport_config_partial_overrides() {
    let mut args = overrides();
    args.shared_memory_name = Some("my_shm".to_string());
    let config = build_standalone_transport_config(&args);

    assert_eq!(config.shared_memory_name, "my_shm");
    assert_eq!(config.host, "127.0.0.1");
    assert_eq!(config.port, 8080);
    assert_eq!(config.buffer_size, 8192);
}

#[test]
fn test_standalone_server_rejects_all_mechanism() {
    let mechanisms = vec![IpcMechanism::All];
    let mechanism = mechanisms.first().unwrap();
    assert_eq!(*mechanism, IpcMechanism::All);
}

#[test]
fn test_dispatch_server_message_request() {
    let msg = Message::new(1, Vec::new(), MessageType::Request);
    let resp = dispatch_server_message(&msg).unwrap();
    assert_eq!(resp.id, 1);
    assert_eq!(resp.message_type, MessageType::Response);
}

#[test]
fn test_dispatch_server_message_ping() {
    let msg = Message::new(42, Vec::new(), MessageType::Ping);
    let resp = dispatch_server_message(&msg).unwrap();
    assert_eq!(resp.id, 42);
    assert_eq!(resp.message_type, MessageType::Pong);
}

#[test]
fn test_dispatch_server_message_one_way_returns_none() {
    let msg = Message::new(1, Vec::new(), MessageType::OneWay);
    assert!(dispatch_server_message(&msg).is_none());
}

#[test]
fn test_dispatch_server_message_shutdown_returns_none() {
    let msg = Message::new(1, Vec::new(), MessageType::Shutdown);
    assert!(dispatch_server_message(&msg).is_none());
}

#[test]
fn test_should_buffer_latency_excludes_canary() {
    assert!(
        !should_buffer_latency(true, u64::MAX),
        "canary messages must be excluded"
    );
}

#[test]
fn test_should_buffer_latency_includes_normal() {
    assert!(should_buffer_latency(true, 0));
    assert!(should_buffer_latency(true, 1));
    assert!(should_buffer_latency(true, 42));
    assert!(should_buffer_latency(true, u64::MAX - 1));
}

#[test]
fn test_should_buffer_latency_disabled() {
    assert!(!should_buffer_latency(false, 0));
    assert!(!should_buffer_latency(false, 42));
    assert!(!should_buffer_latency(false, u64::MAX));
}

#[test]
fn test_write_latency_buffer_format() {
    let entries: Vec<(u64, u64)> =
        vec![(1000, 100), (2000, 200), (3000, 999), (0, 0), (5000, 42)];
    let text = format_latency_buffer(&entries);
    let lines: Vec<&str> = text.lines().collect();

    assert_eq!(lines.len(), 5);
    assert_eq!(lines[0], "1000,100");
    assert_eq!(lines[1], "2000,200");
    assert_eq!(lines[2], "3000,999");
    assert_eq!(lines[3], "0,0");
    assert_eq!(lines[4], "5000,42");
}

#[test]
fn test_write_latency_buffer_empty() {
    let text = format_latency_buffer(&[]);
    assert!(text.is_empty(), "empty buffer should produce empty file");
}

#[test]
fn latency_buffer_extreme_values() {
    let text = format_latency_buffer(&[(u64::MAX - 1, u64::MAX - 1), (999_999_999, 123_456_789)]);
    assert_eq!(text, "18446744073709551614,18446744073709551614\n999999999,123456789\n");
}

#[test]
fn server_step_decisions() {
    let stop = server_step(&Message::with_timestamp(0, 0, vec![], MessageType::Shutdown), 10);
    assert!(stop.stop && stop.response.is_none() && stop.one_way_latency_ns.is_none());

    let ow = server_step(&Message::with_timestamp(3, 100, vec![1], MessageType::OneWay), 160);
    assert!(!ow.stop);
    assert_eq!(ow.one_way_latency_ns, Some(60));
    assert!(ow.response.is_none());

    let canary = server_step(&Message::with_timestamp(u64::MAX, 100, vec![], MessageType::OneWay), 160);
    assert!(canary.one_way_latency_ns.is_none());

    let req = server_step(&Message::with_timestamp(9, 100, vec![1, 2], MessageType::Request), 160);
    let resp = req.response.unwrap();
    assert_eq!(resp.id, 9);
    assert_eq!(resp.message_type, MessageType::Response);
    assert!(resp.payload.is_empty());
    assert!(req.one_way_latency_ns.is_none());
}

#[test]
fn warmup_type_follows_mode() {
    assert_eq!(warmup_message_type(true), MessageType::Request);
    assert_eq!(warmup_message_type(false), MessageType::OneWay);
}

#[test]
fn test_verbosity_to_level() {
    assert_eq!(verbosity_to_level(0), LogLevel::Info);
    assert_eq!(verbosity_to_level(1), LogLevel::Debug);
    assert_eq!(verbosity_to_level(2), LogLevel::Trace);
}

#[test]
fn internal_server_buffers_every_non_canary_message() {
    let req = Message::with_timestamp(3, 1_000, vec![1], MessageType::Request);
    let a = internal_server_step(&req, 1_600, 50_000, true, true);
    assert!(!a.stop);
    assert_eq!(a.latency_ns, 600);
    assert_eq!(a.buffered, Some((49_400, 600)));
    let r = a.response.unwrap();
    assert_eq!(r.id, 3);
    assert_eq!(r.message_type, MessageType::Response);

    let canary = Message::with_timestamp(CANARY_ID, 1_000, vec![], MessageType::OneWay);
    let b = internal_server_step(&canary, 500, 100, true, true);
    assert_eq!(b.latency_ns, 0);
    assert!(b.buffered.is_none());
    assert!(b.response.is_none());

    let off = internal_server_step(&req, 1_600, 50_000, false, true);
    assert!(off.buffered.is_none());

    let stop = Message::with_timestamp(7, 10, vec![], MessageType::Shutdown);
    let c = internal_server_step(&stop, 20, 5, true, true);
    assert!(c.stop);
    assert_eq!(c.buffered, Some((0, 10)));
    assert!(c.response.is_none());

    // The asynchronous server keeps serving after a Shutdown.
    let d = internal_server_step(&stop, 20, 5, true, false);
    assert!(!d.stop);
    assert_eq!(d.buffered, Some((0, 10)));
    assert!(d.response.is_none());
    let e = internal_server_step(&req, 1_600, 50_000, true, false);
    assert!(!e.stop);
    assert_eq!(e.response.unwrap().message_type, MessageType::Response);
}

#[test]
fn server_overrides_touch_only_the_mechanism_endpoint() {
    let mut o = overrides();
    o.socket_path = Some("/tmp/s.sock".to_string());
    o.shared_memory_name = Some("seg".to_string());
    o.message_queue_name = Some("q".to_string());
    o.host = "10.0.0.1".to_string();
    o.port = 9999;
    let uds = apply_server_overrides(IpcMechanism::UnixDomainSocket, TransportConfig::default(), &o);
    assert_eq!(uds.socket_path, "/tmp/s.sock");
    assert_eq!(uds.host, "127.0.0.1");
    assert_eq!(uds.shared_memory_name, "ipc_benchmark_shm");
    let tcp = apply_server_overrides(IpcMechanism::TcpSocket, TransportConfig::default(), &o);
    assert_eq!(tcp.host, "10.0.0.1");
    assert_eq!(tcp.port, 9999);
    assert_eq!(tcp.socket_path, "/tmp/ipc_benchmark.sock");
    let shm = apply_server_overrides(IpcMechanism::SharedMemory, TransportConfig::default(), &o);
    assert_eq!(shm.shared_memory_name, "seg");
    let pmq = apply_server_overrides(IpcMechanism::PosixMessageQueue, TransportConfig::default(), &o);
    assert_eq!(pmq.message_queue_name, "q");
    assert_eq!(pmq.port, 8080);
    let all = apply_server_overrides(IpcMechanism::All, TransportConfig::default(), &o);
    assert_eq!(all.host, "127.0.0.1");
    assert_eq!(all.message_queue_name, "ipc_benchmark_pmq");
    o.socket_path = None;
    let kept = apply_server_overrides(IpcMechanism::UnixDomainSocket, TransportConfig::default(), &o);
    assert_eq!(kept.socket_path, "/tmp/ipc_benchmark.sock");
}
