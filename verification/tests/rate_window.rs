use s3_proxy::rate::RateLimiter;

#[test]
fn one_hundred_requests_pass_the_hundred_and_first_is_limited() {
    let mut limiter = RateLimiter::new();
    for i in 0..100u64 {
        assert!(
            !limiter.is_rate_limited("alice", 1000 + i),
            "request {} should be admitted",
            i + 1
        );
    }
    assert!(limiter.is_rate_limited("alice", 1100));
}

#[test]
fn limited_request_is_not_recorded() {
    let mut limiter = RateLimiter::new();
    for i in 0..100u64 {
        assert!(!limiter.is_rate_limited("alice", 1000 + i));
    }
    // Turned away twice at the cap; once the first stamp ages out, the
    // rejected attempts have left no trace and one slot is free again.
    assert!(limiter.is_rate_limited("alice", 1100));
    assert!(limiter.is_rate_limited("alice", 1101));
    assert!(!limiter.is_rate_limited("alice", 1000 + 60000));
}

#[test]
fn stamps_age_out_after_the_window() {
    let mut limiter = RateLimiter::new();
    for _ in 0..100u64 {
        assert!(!limiter.is_rate_limited("alice", 5000));
    }
    assert!(limiter.is_rate_limited("alice", 5000));
    // At exactly window length the old stamps are purged.
    assert!(!limiter.is_rate_limited("alice", 5000 + 60000));
}

#[test]
fn stamp_on_the_window_edge_still_counts() {
    let mut limiter = RateLimiter::new();
    for _ in 0..100u64 {
        assert!(!limiter.is_rate_limited("alice", 5000));
    }
    // One millisecond short of the window, everything still counts.
    assert!(limiter.is_rate_limited("alice", 5000 + 59999));
}

#[test]
fn usernames_are_limited_independently() {
    let mut limiter = RateLimiter::new();
    for _ in 0..100u64 {
        assert!(!limiter.is_rate_limited("alice", 7000));
    }
    assert!(limiter.is_rate_limited("alice", 7000));
    assert!(!limiter.is_rate_limited("bob", 7000));
}

#[test]
fn future_stamps_are_kept_on_a_clock_step_back() {
    let mut limiter = RateLimiter::new();
    assert!(!limiter.is_rate_limited("alice", 100000));
    // The clock stepping backwards does not erase the recorded stamp.
    assert!(!limiter.is_rate_limited("alice", 40000));
    assert!(!limiter.is_rate_limited("alice", 40001));
}
