use circuit_breaker::policy::{ConfigError, Policy, Ratio, SlidingFailureRate};

#[test]
fn no_traffic_is_not_punished() {
    let mut p = SlidingFailureRate::new(8000, Ratio { num: 1, den: 10 }).unwrap();
    // zero requests: the rate is undefined and compares as "not punished"
    assert!(!p.is_punished(0));
}

#[test]
fn two_failures_in_twelve_requests_exceed_ten_percent() {
    let mut p = SlidingFailureRate::new(8000, Ratio { num: 1, den: 10 }).unwrap();
    for _ in 0..10 {
        p.record_success(0);
    }
    for _ in 0..2 {
        p.record_failure(0);
    }
    // 2/12 > 0.1
    assert!(p.is_punished(0));
}

#[test]
fn two_failures_in_twelve_requests_stay_within_twenty_percent() {
    let mut p = SlidingFailureRate::new(8000, Ratio { num: 1, den: 5 }).unwrap();
    for _ in 0..10 {
        p.record_success(0);
    }
    for _ in 0..2 {
        p.record_failure(0);
    }
    // 2/12 <= 0.2
    assert!(!p.is_punished(0));
}

#[test]
fn reset_clears_history() {
    let mut p = SlidingFailureRate::new(8000, Ratio { num: 0, den: 1 }).unwrap();
    p.record_failure(0);
    assert!(p.is_punished(0));
    p.reset(0);
    assert!(!p.is_punished(0));
}

#[test]
fn failures_expire_with_the_window() {
    let mut p = SlidingFailureRate::new(8000, Ratio { num: 1, den: 10 }).unwrap();
    for _ in 0..10 {
        p.record_success(0);
    }
    p.record_failure(0);
    p.record_failure(0);
    assert!(p.is_punished(0));
    // more than the full window later, everything has decayed
    assert!(!p.is_punished(9000));
}

#[test]
fn rejects_invalid_max_rate() {
    assert_eq!(
        SlidingFailureRate::new(8000, Ratio { num: 2, den: 1 }).unwrap_err(),
        ConfigError::InvalidMaxRate
    );
    assert_eq!(
        SlidingFailureRate::new(8000, Ratio { num: 0, den: 0 }).unwrap_err(),
        ConfigError::InvalidMaxRate
    );
    assert_eq!(
        SlidingFailureRate::new(8000, Ratio { num: 1, den: 2_000_000 }).unwrap_err(),
        ConfigError::InvalidMaxRate
    );
}

#[test]
fn rejects_a_window_smaller_than_its_buckets() {
    assert_eq!(
        SlidingFailureRate::new(7, Ratio { num: 1, den: 2 }).unwrap_err(),
        ConfigError::WindowOutOfRange
    );
}
