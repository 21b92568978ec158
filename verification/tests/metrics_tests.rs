use ipc_benchmark::metrics::MAX_LATENCY_NS;
use ipc_benchmark::metrics::{aggregate_worker_results, WorkerResult};
use ipc_benchmark::metrics::{
    aggregate_latency_summaries, aggregate_throughput_totals, decimal_string, LatencyCollector,
    LatencySummary, LatencyType, MetricsCollector, MetricsError, ThroughputCalculator,
    ThroughputTotals,
};
use ipc_benchmark::pmq::BlockingPosixMessageQueue;
use ipc_benchmark::transport::TransportConfig;

#[test]
fn test_latency_collector() {
    let mut collector = LatencyCollector::new(LatencyType::OneWay).unwrap();

    collector.record(1_000_000).unwrap();
    collector.record(2_000_000).unwrap();
    collector.record(3_000_000).unwrap();

    let metrics = collector.summary();
    assert_eq!(metrics.latency_type, LatencyType::OneWay);
    assert_eq!(metrics.total_samples, 3);
    assert_eq!(metrics.min_ns, 1_000_000);
    assert_eq!(metrics.max_ns, 3_000_000);
    assert!(collector.histogram().inner.mean() > 0.0);
}

#[test]
fn latency_collector_reset_clears_samples() {
    let mut c = LatencyCollector::new(LatencyType::RoundTrip).unwrap();
    c.record(500).unwrap();
    c.reset();
    let s = c.summary();
    assert_eq!(s.total_samples, 0);
    assert_eq!(s.min_ns, 0);
    assert_eq!(s.max_ns, 0);
    assert_eq!(s.latency_type, LatencyType::RoundTrip);
    let fresh = LatencyCollector::new(LatencyType::RoundTrip).unwrap().summary();
    assert_eq!(s, fresh);
}

#[test]
fn latency_collector_refuses_samples_above_one_minute() {
    let mut c = LatencyCollector::new(LatencyType::OneWay).unwrap();
    assert_eq!(c.record(120_000_000_000), Err(MetricsError::HistogramRecord));
    assert_eq!(c.summary().total_samples, 0);
    c.record(MAX_LATENCY_NS).unwrap();
    assert_eq!(c.record(MAX_LATENCY_NS + 1), Err(MetricsError::HistogramRecord));
    let s = c.summary();
    assert_eq!(s.total_samples, 1);
    assert_eq!(s.max_ns, MAX_LATENCY_NS);
    assert_eq!(c.histogram().inner.len(), 1);
    assert_eq!(
        MetricsError::HistogramRecord.message(),
        "The value to record is not representable in this histogram and resizing is disabled"
    );
}

#[test]
fn metrics_collector_reports_out_of_range_latency() {
    let mut m = MetricsCollector::new(Some(LatencyType::RoundTrip)).unwrap();
    assert_eq!(m.record_message(8, Some(61_000_000_000)), Err(MetricsError::HistogramRecord));
    assert_eq!(m.throughput_calculator.message_count(), 1);
    assert_eq!(m.latency_collector.as_ref().unwrap().summary().total_samples, 0);
    assert_eq!(MetricsError::EmptyAggregation.message(), "Cannot aggregate empty metrics");
}

#[test]
fn test_throughput_calculator() {
    let mut calculator = ThroughputCalculator::new();

    calculator.record_message(1024);
    calculator.record_message(2048);

    let metrics = calculator.totals();
    assert_eq!(metrics.total_messages, 2);
    assert_eq!(metrics.total_bytes, 3072);
}

#[test]
fn throughput_reset_zeroes_counts() {
    let mut calculator = ThroughputCalculator::default();
    calculator.record_message(10);
    calculator.reset();
    assert_eq!(calculator.message_count(), 0);
    assert_eq!(calculator.byte_count(), 0);
}

#[test]
fn metrics_collector_records_latency_only_when_enabled() {
    let mut without = MetricsCollector::new(None).unwrap();
    without.record_message(64, Some(100)).unwrap();
    assert!(without.latency_collector.is_none());
    assert_eq!(without.throughput_calculator.message_count(), 1);

    let mut with = MetricsCollector::new(Some(LatencyType::OneWay)).unwrap();
    with.record_message(64, Some(100)).unwrap();
    with.record_message(64, None).unwrap();
    let s = with.latency_collector.as_ref().unwrap().summary();
    assert_eq!(s.total_samples, 1);
    assert_eq!(with.throughput_calculator.byte_count(), 128);

    with.add_worker_totals(&ThroughputTotals { total_messages: 3, total_bytes: 30, duration_ns: 0 });
    assert_eq!(with.throughput_calculator.message_count(), 5);
    with.reset();
    assert_eq!(with.throughput_calculator.message_count(), 0);
}

#[test]
fn throughput_aggregation_sums_and_takes_longest() {
    let ts = [
        ThroughputTotals { total_messages: 10, total_bytes: 100, duration_ns: 5 },
        ThroughputTotals { total_messages: 20, total_bytes: 200, duration_ns: 9 },
        ThroughputTotals { total_messages: 1, total_bytes: 1, duration_ns: 7 },
    ];
    let t = aggregate_throughput_totals(&ts);
    assert_eq!(t.total_messages, 31);
    assert_eq!(t.total_bytes, 301);
    assert_eq!(t.duration_ns, 9);
    let none = aggregate_throughput_totals(&[]);
    assert_eq!(none.total_messages, 0);
    assert_eq!(none.duration_ns, 0);
}

#[test]
fn latency_aggregation_combines_workers() {
    let ms = [
        LatencySummary { latency_type: LatencyType::OneWay, min_ns: 50, max_ns: 900, total_samples: 10 },
        LatencySummary { latency_type: LatencyType::OneWay, min_ns: 20, max_ns: 400, total_samples: 30 },
        LatencySummary { latency_type: LatencyType::OneWay, min_ns: 70, max_ns: 1200, total_samples: 30 },
    ];
    let (s, rep) = aggregate_latency_summaries(&ms).unwrap();
    assert_eq!(s.min_ns, 20);
    assert_eq!(s.max_ns, 1200);
    assert_eq!(s.total_samples, 70);
    assert_eq!(rep, 2);
    assert_eq!(aggregate_latency_summaries(&[]), Err(MetricsError::EmptyLatencyAggregation));
    assert_eq!(MetricsError::EmptyLatencyAggregation.message(), "Cannot aggregate empty latency metrics");
}

#[test]
fn decimal_text_of_integers() {
    assert_eq!(decimal_string(0), "0");
    assert_eq!(decimal_string(7), "7");
    assert_eq!(decimal_string(1500), "1500");
    assert_eq!(decimal_string(u64::MAX), u64::MAX.to_string());
}

#[test]
fn posix_message_queue_blocking_test_new_creates_empty_transport() {
    let transport = BlockingPosixMessageQueue::new();
    assert!(transport.queue_name_base.is_empty());
    assert_eq!(transport.max_msg_size, 8192);
    assert_eq!(transport.max_msg_count, 10);
}

#[test]
fn pmq_settings_follow_config() {
    let mut s = BlockingPosixMessageQueue::new();
    let mut config = TransportConfig::default();
    config.message_queue_name = "bench".to_string();
    config.buffer_size = 1024;
    config.message_queue_depth = 0;
    config.pmq_priority = 3;
    s.configure(&config);
    assert_eq!(s.queue_name_base, "/bench");
    assert_eq!(s.max_msg_size, 1024);
    assert_eq!(s.max_msg_count, 10);
    assert_eq!(s.priority, 3);
    assert_eq!(s.request_queue_name(), "/bench_req");
    assert_eq!(s.response_queue_name(), "/bench_resp");
    assert!(s.check_message_size(1024).is_ok());
    let err = s.check_message_size(1025).unwrap_err().message();
    assert!(err.contains("exceeds maximum"));
    assert_eq!(err, "IPC error: Message size 1025 exceeds maximum 1024");
}

#[test]
fn worker_results_aggregate_throughput_and_present_latencies() {
    let l = |min, max, n| LatencySummary {
        latency_type: LatencyType::RoundTrip,
        min_ns: min,
        max_ns: max,
        total_samples: n,
    };
    let ws = [
        WorkerResult {
            throughput: ThroughputTotals { total_messages: 5, total_bytes: 50, duration_ns: 3 },
            latency: Some(l(10, 90, 5)),
        },
        WorkerResult {
            throughput: ThroughputTotals { total_messages: 7, total_bytes: 70, duration_ns: 8 },
            latency: None,
        },
        WorkerResult {
            throughput: ThroughputTotals { total_messages: 1, total_bytes: 10, duration_ns: 2 },
            latency: Some(l(4, 40, 9)),
        },
    ];
    let (t, lat) = aggregate_worker_results(&ws).unwrap();
    assert_eq!(t.total_messages, 13);
    assert_eq!(t.total_bytes, 130);
    assert_eq!(t.duration_ns, 8);
    let (s, rep) = lat.unwrap();
    assert_eq!(s.min_ns, 4);
    assert_eq!(s.max_ns, 90);
    assert_eq!(s.total_samples, 14);
    assert_eq!(rep, 1);

    let only_throughput = [WorkerResult {
        throughput: ThroughputTotals { total_messages: 2, total_bytes: 2, duration_ns: 1 },
        latency: None,
    }];
    assert!(aggregate_worker_results(&only_throughput).unwrap().1.is_none());
    assert_eq!(aggregate_worker_results(&[]), Err(MetricsError::EmptyAggregation));
}
