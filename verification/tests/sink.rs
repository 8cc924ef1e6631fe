use stellar_daemon::system::buffer_pool::BufferPool;
use stellar_daemon::system::sink::SinkPool;
use stellar_daemon::system::system_monitor::SystemMonitor;

#[test]
fn test_sink_pool() {
    let mut pool = SinkPool::new();

    // Subscribe
    let mut rx = pool.subscribe();

    // Push data
    pool.push(b"Hello".to_vec());
    pool.push_string(" World");

    // Receive
    let msg1 = rx.try_recv().unwrap();
    assert_eq!(msg1, b"Hello");

    let msg2 = rx.try_recv().unwrap();
    assert_eq!(msg2, b" World");
}

#[test]
fn test_multiple_subscribers() {
    let mut pool = SinkPool::new();

    let mut rx1 = pool.subscribe();
    let mut rx2 = pool.subscribe();

    pool.push_string("test");

    assert_eq!(rx1.try_recv().unwrap(), b"test");
    assert_eq!(rx2.try_recv().unwrap(), b"test");
}

#[test]
fn sink_ring_keeps_the_newest_in_push_order() {
    let mut pool = SinkPool::with_buffer_size(8, 3);
    for i in 0..5u8 {
        pool.push_with_timestamp(vec![i], i as i64);
    }
    let history = pool.get_history();
    assert_eq!(history.len(), 3);
    assert_eq!(history[0].data, vec![2]);
    assert_eq!(history[1].data, vec![3]);
    assert_eq!(history[2].data, vec![4]);
    assert_eq!(history[2].timestamp, 4);
    assert_eq!(pool.buffer_len(), 3);
    pool.push_string_with_timestamp("caf\u{e9}", 9);
    assert_eq!(pool.get_history_strings(), vec!["\u{3}".to_string(), "\u{4}".to_string(), "caf\u{e9}".to_string()]);
    assert_eq!(pool.get_history_with_timestamps()[2], ("caf\u{e9}".to_string(), 9));
    pool.clear_buffer();
    assert_eq!(pool.buffer_len(), 0);
}

#[test]
fn sink_push_without_subscribers_still_buffers() {
    let mut pool = SinkPool::with_capacity(4);
    assert_eq!(pool.subscriber_count(), 1);
    pool.push_string_with_timestamp("line", 42);
    assert_eq!(pool.buffer_len(), 1);
    assert_eq!(pool.get_history()[0].timestamp, 42);
    assert_eq!(pool.dropped_message_count(), 0);
}

#[test]
fn sink_records_dropped_messages() {
    let mut pool = SinkPool::new();
    pool.record(b"a".to_vec(), 1, false);
    pool.record(b"b".to_vec(), 2, true);
    pool.record(b"c".to_vec(), 3, false);
    assert_eq!(pool.dropped_message_count(), 2);
    assert_eq!(pool.buffer_len(), 3);
    pool.reset_dropped_count();
    assert_eq!(pool.dropped_message_count(), 0);
}

#[test]
fn sink_subscriber_that_keeps_up_sees_submit_order() {
    let mut pool = SinkPool::with_buffer_size(16, 4);
    let mut rx = pool.subscribe();
    for i in 0..10u8 {
        pool.push(vec![i]);
    }
    for i in 0..10u8 {
        assert_eq!(rx.try_recv().unwrap(), vec![i]);
    }
    assert!(rx.try_recv().is_err());
}

#[test]
fn test_buffer_pool() {
    let mut pool = BufferPool::new();

    // Get a buffer
    let buf1 = pool.get();
    assert_eq!(pool.size(), 0);

    // Return it
    pool.put(buf1);
    assert_eq!(pool.size(), 1);

    // Get it again
    let _buf2 = pool.get();
    assert_eq!(pool.size(), 0);
}

#[test]
fn test_buffer_pool_max_size() {
    let mut pool = BufferPool::with_config(1024, 2);

    let buf1 = pool.get();
    let buf2 = pool.get();
    let buf3 = pool.get();

    pool.put(buf1);
    assert_eq!(pool.size(), 1);

    pool.put(buf2);
    assert_eq!(pool.size(), 2);

    pool.put(buf3); // Should be dropped, pool is full
    assert_eq!(pool.size(), 2);
}

#[test]
fn buffer_pool_hands_out_empty_buffers() {
    let mut pool = BufferPool::with_config(8, 2);
    pool.put(vec![1, 2, 3]);
    let b = pool.get();
    assert!(b.is_empty());
    pool.put(b);
    pool.clear();
    assert_eq!(pool.size(), 0);
}

#[test]
fn test_system_monitor_enable_disable() {
    let mut monitor = SystemMonitor::new();
    assert!(!monitor.is_enabled());

    monitor.enable();
    assert!(monitor.is_enabled());

    monitor.disable();
    assert!(!monitor.is_enabled());
}

#[test]
fn test_system_monitor_clone() {
    let mut monitor = SystemMonitor::new();
    monitor.enable();

    let cloned = monitor.clone();
    assert_eq!(monitor.is_enabled(), cloned.is_enabled());
}

#[test]
fn sink_remembers_the_capacity_it_was_made_with() {
    assert_eq!(SinkPool::new().channel_capacity(), 1024);
    assert_eq!(SinkPool::with_capacity(16).channel_capacity(), 16);
    let mut pool = SinkPool::with_buffer_size(8, 2);
    pool.push_string("a");
    pool.clear_buffer();
    assert_eq!(pool.channel_capacity(), 8);
}
