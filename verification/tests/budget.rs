use circuit_breaker::policy::{ConfigError, FailureBudget, Policy, Ratio};

#[test]
fn baseline_tolerates_failures_until_exceeded_and_reset_restores() {
    // window 1 s, 5 failures/s baseline, one failure tolerated per success
    let mut p = FailureBudget::new(1000, 5, Ratio { num: 1, den: 1 }).unwrap();
    assert_eq!(p.baseline_allowance, 5);
    // no traffic recorded: not punished
    assert!(!p.is_punished(0));
    for _ in 0..5 {
        p.record_failure(0);
    }
    // 5 - 5 == 0 is not negative yet
    assert!(!p.is_punished(0));
    p.record_failure(0);
    // 5 - 6 < 0: the weighted failures exceed the baseline
    assert!(p.is_punished(0));
    p.reset(0);
    assert!(!p.is_punished(0));
}

#[test]
fn successes_earn_proportional_allowance() {
    let mut p = FailureBudget::new(1000, 0, Ratio { num: 1, den: 1 }).unwrap();
    p.record_success(0);
    p.record_failure(0);
    assert!(!p.is_punished(0));
    p.record_failure(0);
    assert!(p.is_punished(0));
}

#[test]
fn failure_percent_scales_the_weights() {
    // half of the successes may fail: weight successes 1, failures 2
    let mut p = FailureBudget::new(1000, 0, Ratio { num: 1, den: 2 }).unwrap();
    assert_eq!(p.success_weight, 1);
    assert_eq!(p.failure_weight, 2);
    p.record_success(0);
    p.record_success(0);
    p.record_failure(0);
    // 2 - 2 == 0: exactly at the allowance
    assert!(!p.is_punished(0));
    p.record_failure(0);
    assert!(p.is_punished(0));
}

#[test]
fn rejects_bad_configuration() {
    assert_eq!(
        FailureBudget::new(100, 5, Ratio { num: 1, den: 1 }).unwrap_err(),
        ConfigError::WindowOutOfRange
    );
    assert_eq!(
        FailureBudget::new(70_000, 5, Ratio { num: 1, den: 1 }).unwrap_err(),
        ConfigError::WindowOutOfRange
    );
    assert_eq!(
        FailureBudget::new(1000, 5, Ratio { num: 1001, den: 1 }).unwrap_err(),
        ConfigError::InvalidFailurePercent
    );
    assert_eq!(
        FailureBudget::new(1000, 5, Ratio { num: 1, den: 0 }).unwrap_err(),
        ConfigError::InvalidFailurePercent
    );
    assert_eq!(
        FailureBudget::new(1000, 2_000_000, Ratio { num: 1, den: 1 }).unwrap_err(),
        ConfigError::AllowanceTooLarge
    );
}
