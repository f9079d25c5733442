use circuit_breaker::policy::{FailureBudget, Policy, Ratio, SlidingFailureRate};
use circuit_breaker::service::Admission;
use circuit_breaker::{CircuitBreaker, Config};

/// A policy that punishes on any failure at all.
fn strict_policy() -> SlidingFailureRate {
    SlidingFailureRate::new(8000, Ratio { num: 0, den: 1 }).unwrap()
}

#[test]
fn trips_on_punishment_and_recovers_after_cooldown() {
    let mut b = CircuitBreaker::new(Config { policy: strict_policy(), trip_for_ms: 5000 });
    assert_eq!(b.check_admission(0), Admission::Admitted);
    let out: Result<&str, &str> = b.record_outcome(100, Err("downstream failed"));
    assert_eq!(out, Err("downstream failed"));
    // the very next admission check trips and refuses for the full cooldown
    assert_eq!(b.check_admission(200), Admission::Refused { wake_at_ms: 5200 });
    assert!(b.is_tripped());
    assert_eq!(b.check_admission(5199), Admission::Refused { wake_at_ms: 5200 });
    // once the cooldown elapses, admission succeeds again
    assert_eq!(b.check_admission(5200), Admission::Admitted);
    assert!(!b.is_tripped());
    // and the policy was reset: only post-reset history counts
    assert!(!b.config.policy.is_punished(5200));
}

#[test]
fn outcomes_are_forwarded_unchanged() {
    let mut b = CircuitBreaker::new(Config { policy: strict_policy(), trip_for_ms: 1000 });
    let ok: Result<i32, String> = b.record_outcome(0, Ok(42));
    assert_eq!(ok, Ok(42));
    let err: Result<i32, String> = b.record_outcome(0, Err(String::from("boom")));
    assert_eq!(err, Err(String::from("boom")));
}

#[test]
fn abandoned_requests_leave_the_verdict_alone() {
    let mut b = CircuitBreaker::new(Config { policy: strict_policy(), trip_for_ms: 5000 });
    let _ = b.record_outcome::<(), ()>(0, Ok(()));
    // admission checks for requests that are then abandoned record nothing
    for _ in 0..10 {
        assert_eq!(b.check_admission(100), Admission::Admitted);
    }
    assert!(!b.config.policy.is_punished(100));
    // only an observed completion changes the verdict
    let _ = b.record_outcome::<(), &str>(100, Err("late failure"));
    assert_eq!(b.check_admission(100), Admission::Refused { wake_at_ms: 5100 });
}

#[test]
fn late_failures_while_tripped_extend_the_trip() {
    let mut b = CircuitBreaker::new(Config { policy: strict_policy(), trip_for_ms: 5000 });
    let _ = b.record_outcome::<(), ()>(0, Err(()));
    assert_eq!(b.check_admission(100), Admission::Refused { wake_at_ms: 5100 });
    // a completion from a still in-flight request arrives while tripped
    let _ = b.record_outcome::<(), ()>(300, Err(()));
    // the next check re-arms the cooldown from its own time
    assert_eq!(b.check_admission(400), Admission::Refused { wake_at_ms: 5400 });
}

#[test]
fn guards_the_budget_policy_the_same_way() {
    let policy = FailureBudget::new(1000, 0, Ratio { num: 1, den: 1 }).unwrap();
    let mut b = CircuitBreaker::new(Config { policy, trip_for_ms: 2000 });
    assert_eq!(b.check_admission(0), Admission::Admitted);
    let _ = b.record_outcome::<(), ()>(10, Err(()));
    assert_eq!(b.check_admission(20), Admission::Refused { wake_at_ms: 2020 });
    assert_eq!(b.check_admission(2020), Admission::Admitted);
}

#[test]
fn zero_cooldown_admits_immediately_after_reset() {
    let mut b = CircuitBreaker::new(Config { policy: strict_policy(), trip_for_ms: 0 });
    let _ = b.record_outcome::<(), ()>(0, Err(()));
    // the trip deadline is already past, so the same check unlocks the
    // breaker after resetting the policy
    assert_eq!(b.check_admission(0), Admission::Admitted);
    assert!(!b.is_tripped());
}
