use ipc_benchmark::latency_format::format_latency;

#[test]
fn test_format_latency() {
    assert_eq!(format_latency(500), "500ns");
    assert_eq!(format_latency(1500), "1.50μs");
    assert_eq!(format_latency(1500000), "1.50ms");
    assert_eq!(format_latency(1500000000), "1.50s");
}

fn float_text(n: u64) -> String {
    if n < 1_000 {
        format!("{}ns", n)
    } else if n < 1_000_000 {
        format!("{:.2}μs", n as f64 / 1_000.0)
    } else if n < 1_000_000_000 {
        format!("{:.2}ms", n as f64 / 1_000_000.0)
    } else {
        format!("{:.2}s", n as f64 / 1_000_000_000.0)
    }
}

#[test]
fn format_latency_boundaries() {
    assert_eq!(format_latency(0), "0ns");
    assert_eq!(format_latency(999), "999ns");
    assert_eq!(format_latency(1000), "1.00μs");
    assert_eq!(format_latency(999_999), "1000.00μs");
    assert_eq!(format_latency(1_000_000), "1.00ms");
    assert_eq!(format_latency(1_000_000_000), "1.00s");
}

#[test]
fn format_latency_matches_double_formatting_on_ties() {
    for n in [1005u64, 1015, 1025, 1125, 1375, 2005, 10_005, 125_125, 999_995, 1_005_000, 1_125_000, 2_675_000, 1_005_000_000, 1_125_000_000] {
        assert_eq!(format_latency(n), float_text(n), "n = {}", n);
    }
}

#[test]
fn format_latency_matches_double_formatting_on_ranges() {
    for n in 0u64..200_000 {
        assert_eq!(format_latency(n), float_text(n), "n = {}", n);
    }
    let mut n: u64 = 200_000;
    while n < u64::MAX / 3 {
        assert_eq!(format_latency(n), float_text(n), "n = {}", n);
        assert_eq!(format_latency(n + 5), float_text(n + 5), "n = {}", n + 5);
        n = n / 7 * 9 + 13;
    }
    for n in [u64::MAX, u64::MAX - 1, 1 << 53, (1 << 53) + 1, (1 << 54) + 3, 9_007_199_254_740_993] {
        assert_eq!(format_latency(n), float_text(n), "n = {}", n);
    }
}
