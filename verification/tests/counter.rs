use circuit_breaker::window_counter::WindowedCounter;

#[test]
fn exact_sum_within_one_bucket() {
    // window 8000 ms -> bucket duration 1000 ms
    let mut c = WindowedCounter::new(8000);
    c.add_at(0, 5);
    c.add_at(400, 7);
    c.add_at(999, -2);
    assert_eq!(c.total_at(999), 10);
}

#[test]
fn full_window_decay_returns_to_zero() {
    let mut c = WindowedCounter::new(8000);
    c.add_at(0, 5);
    c.add_at(3000, 9);
    // exactly the full window after the active bucket started
    assert_eq!(c.total_at(3000 + 8000), 0);
}

#[test]
fn long_jump_clears_everything_without_stale_leaks() {
    let mut c = WindowedCounter::new(8000);
    // populate every bucket
    for i in 0..8u64 {
        c.add_at(i * 1000, 3);
    }
    assert_eq!(c.total_at(7999), 24);
    // jump far past the window in one go
    assert_eq!(c.total_at(1_000_000), 0);
    // no stale bucket data leaks back in on wrap-around
    c.add_at(1_000_000, 4);
    assert_eq!(c.total_at(1_000_000), 4);
}

#[test]
fn saturates_instead_of_overflowing() {
    let mut c = WindowedCounter::new(8000);
    c.add_at(0, i64::MAX);
    c.add_at(0, 1);
    assert_eq!(c.total_at(0), i64::MAX);
    c.clear_at(0);
    c.add_at(0, i64::MIN);
    c.add_at(0, -1);
    assert_eq!(c.total_at(0), i64::MIN);
}

#[test]
fn total_saturates_across_buckets() {
    let mut c = WindowedCounter::new(8000);
    c.add_at(0, i64::MAX);
    c.add_at(1000, i64::MAX);
    assert_eq!(c.total_at(1000), i64::MAX);
}

#[test]
fn clear_empties_and_reanchors_the_epoch() {
    let mut c = WindowedCounter::new(8000);
    c.add_at(0, 42);
    c.clear_at(500);
    assert_eq!(c.total_at(500), 0);
    // still within the re-anchored bucket
    c.add_at(1499, 7);
    assert_eq!(c.total_at(1499), 7);
}

#[test]
fn clock_not_advancing_is_a_no_op() {
    let mut c = WindowedCounter::new(8000);
    c.add_at(5000, 3);
    // a reading from before the epoch counts as no time passed
    assert_eq!(c.total_at(0), 3);
    assert_eq!(c.total_at(5000), 3);
}

#[test]
fn self_clocked_methods_observe_recent_adds() {
    // bucket duration 10 s: the calls below stay well within one bucket
    let mut c = WindowedCounter::new(80_000);
    c.add(3);
    c.add(4);
    assert_eq!(c.total(), 7);
    c.clear();
    assert_eq!(c.total(), 0);
}
