use stellar_daemon::rate_limiter::{ConsoleThrottle, TokenBucket};

#[test]
fn test_token_bucket_basic() {
    let mut bucket = TokenBucket::new(10, 10); // 10 tokens/sec, max 10
    assert!(bucket.try_acquire(5));
    assert!(bucket.try_acquire(5));
    assert!(!bucket.try_acquire(1)); // Should be rate-limited now
}

#[test]
fn test_console_throttle() {
    let mut throttle = ConsoleThrottle::new();

    // Should allow up to burst capacity
    for _ in 0..120 {
        assert!(throttle.allow_line());
    }

    // Should be rate-limited after burst
    assert!(!throttle.allow_line());
}

#[test]
fn bucket_refills_by_whole_seconds_only() {
    let mut bucket = TokenBucket::new_at(10, 3, 1_000);
    assert!(bucket.try_acquire_at(10, 1_000));
    assert_eq!(bucket.available_tokens_at(1_999), 0);
    assert_eq!(bucket.available_tokens_at(2_000), 3);
    assert_eq!(bucket.available_tokens_at(2_500), 3);
    assert_eq!(bucket.available_tokens_at(4_100), 9);
}

#[test]
fn bucket_never_exceeds_capacity() {
    let mut bucket = TokenBucket::new_at(5, 100, 0);
    assert!(bucket.try_acquire_at(2, 0));
    assert_eq!(bucket.available_tokens_at(60_000), 5);
    assert!(!bucket.try_acquire_at(6, 120_000));
    assert_eq!(bucket.available_tokens_at(120_000), 5);
}

#[test]
fn bucket_grants_at_most_capacity_plus_rate_times_elapsed() {
    let mut bucket = TokenBucket::new_at(3, 2, 0);
    let mut granted = 0u64;
    let mut now = 0u64;
    while now <= 5_000 {
        if bucket.try_acquire_at(1, now) {
            granted += 1;
        }
        now += 100;
    }
    assert!(granted <= 3 + 5 * 2);
    assert_eq!(granted, 12);
}

#[test]
fn bucket_ignores_a_clock_that_runs_back() {
    let mut bucket = TokenBucket::new_at(4, 4, 10_000);
    assert!(bucket.try_acquire_at(4, 10_000));
    assert_eq!(bucket.available_tokens_at(5_000), 0);
    assert!(!bucket.try_acquire_at(1, 9_999));
}

#[test]
fn throttle_with_config_follows_its_bucket() {
    let mut throttle = ConsoleThrottle::with_config_at(2, 1, 0);
    assert!(throttle.allow_lines_at(2, 0));
    assert!(!throttle.allow_lines_at(1, 999));
    assert!(throttle.allow_lines_at(1, 1_000));
    let mut other = ConsoleThrottle::with_config(3, 1);
    assert!(other.allow_lines(3));
    assert!(!other.allow_lines(4));
    assert!(other.available_tokens() <= 3);
}
