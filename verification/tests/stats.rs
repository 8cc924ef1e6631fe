use stellar_daemon::events::{NetworkStats, Stats};
use stellar_daemon::stats::{add_interface, calculate_cpu, calculate_memory, calculate_network, effective_cpus, stream_error_is_stop};
use stellar_daemon::stats_buffer::{StatsBuffer, StatsEntry};

#[test]
fn test_calculate_memory() {
    assert_eq!(calculate_memory(Some(100_000_000)), 100_000_000);
    assert_eq!(calculate_memory(None), 0);
}

#[test]
fn test_calculate_cpu() {
    let cpus = effective_cpus(Some(4), None);

    // First call (no previous values)
    let cpu = calculate_cpu(200_000_000, Some(1_000_000_000), None, None, cpus);
    assert_eq!(cpu, 0);

    // Second call with previous values
    let cpu = calculate_cpu(200_000_000, Some(1_000_000_000), Some(100_000_000), Some(500_000_000), cpus);

    // Expected: (100M / 500M) * 4 * 100 = 80%
    assert!((cpu as f64 / 1000.0 - 80.0).abs() < 0.1);
    assert_eq!(cpu, 80_000);
}

#[test]
fn test_calculate_network() {
    let networks = vec![
        NetworkStats { rx_bytes: 1000, tx_bytes: 2000 },
        NetworkStats { rx_bytes: 500, tx_bytes: 1000 },
    ];
    let result = calculate_network(&networks);
    assert_eq!(result.rx_bytes, 1500);
    assert_eq!(result.tx_bytes, 3000);
}

#[test]
fn cpu_falls_back_to_sample_count_then_one() {
    assert_eq!(effective_cpus(None, Some(8)), 8);
    assert_eq!(effective_cpus(None, None), 1);
    assert_eq!(calculate_cpu(10, Some(10), Some(20), Some(5), 1), 0);
    assert_eq!(calculate_cpu(10, None, Some(5), Some(5), 1), 0);
    // 1/3 of one core: 33.333 %
    assert_eq!(calculate_cpu(1, Some(3), Some(0), Some(0), 1), 33_333);
    // 2/3 of one core: 66.667 %
    assert_eq!(calculate_cpu(2, Some(3), Some(0), Some(0), 1), 66_667);
}

#[test]
fn network_of_no_interface_is_zero() {
    let total = calculate_network(&Vec::new());
    assert_eq!(total, NetworkStats { rx_bytes: 0, tx_bytes: 0 });
    assert_eq!(add_interface(total, NetworkStats { rx_bytes: 1, tx_bytes: 2 }), Some(NetworkStats { rx_bytes: 1, tx_bytes: 2 }));
    assert_eq!(add_interface(NetworkStats { rx_bytes: u64::MAX, tx_bytes: 0 }, NetworkStats { rx_bytes: 1, tx_bytes: 0 }), None);
}

#[test]
fn stream_errors_that_end_polling() {
    assert!(stream_error_is_stop(Some(404), false, ""));
    assert!(stream_error_is_stop(Some(409), false, ""));
    assert!(stream_error_is_stop(None, true, ""));
    assert!(stream_error_is_stop(Some(500), false, "Error: No such container: abc"));
    assert!(stream_error_is_stop(None, false, "container is stopped"));
    assert!(stream_error_is_stop(None, false, "x is not running"));
    assert!(stream_error_is_stop(None, false, "missing field `cpu_stats`"));
    assert!(stream_error_is_stop(None, false, "Failed to deserialize"));
    assert!(!stream_error_is_stop(Some(500), false, "connection reset"));
}

fn snapshot(memory: u64) -> Stats {
    Stats {
        memory_bytes: memory,
        memory_limit_bytes: 0,
        cpu_absolute_milli: 0,
        network: NetworkStats { rx_bytes: 0, tx_bytes: 0 },
        uptime: 0,
        disk_bytes: 0,
        disk_limit_bytes: 0,
    }
}

#[test]
fn stats_buffer_latest_is_the_entry_just_pushed() {
    let mut buffer = StatsBuffer::new();
    assert_eq!(buffer.get_latest("a"), None);
    buffer.push_at("a", snapshot(1), 1_000_000);
    buffer.push_at("a", snapshot(2), 1_001_000);
    assert_eq!(buffer.get_latest("a"), Some(StatsEntry { stats: snapshot(2), timestamp: 1_001_000 }));
    assert_eq!(buffer.get_latest("b"), None);
    buffer.push("a", snapshot(3));
    assert_eq!(buffer.get_latest("a").unwrap().stats, snapshot(3));
}

#[test]
fn stats_buffer_evicts_outside_the_window() {
    let mut buffer = StatsBuffer::new();
    buffer.push_at("a", snapshot(1), 1_000_000);
    buffer.push_at("a", snapshot(2), 1_100_000);
    buffer.push_at("a", snapshot(3), 1_180_000);
    // the first entry is exactly at the start of the window and stays
    assert_eq!(buffer.get_history_at("a", 1_180_000).len(), 3);
    buffer.push_at("a", snapshot(4), 1_180_001);
    let history = buffer.get_history_at("a", 1_180_001);
    assert_eq!(history.len(), 3);
    assert!(history.iter().all(|e| e.timestamp >= 1_180_001 - 180_000));
    assert_eq!(buffer.get_history_at("a", 1_360_002).len(), 0);
    assert_eq!(buffer.get_latest("a"), None);
}

#[test]
fn stats_buffer_caps_and_clears() {
    let mut buffer = StatsBuffer::new();
    for i in 0..200u64 {
        buffer.push_at("a", snapshot(i), 5_000_000 + i);
    }
    buffer.push_at("b", snapshot(7), 5_000_000);
    let history = buffer.get_history_at("a", 5_000_200);
    assert_eq!(history.len(), 180);
    assert_eq!(history[0].stats, snapshot(20));
    assert_eq!(history[179].stats, snapshot(199));
    buffer.clear("a");
    assert_eq!(buffer.get_history_at("a", 5_000_200).len(), 0);
    assert_eq!(buffer.get_latest("b").unwrap().stats, snapshot(7));
    assert!(buffer.get_history("zzz").is_empty());
}
