//! The ratio form of the sliding failure-rate policy: punished when the
//! fraction of failures among all requests in the trailing window exceeds a
//! fixed maximum rate.

use vstd::prelude::*;

use crate::policy::{ConfigError, Policy, Ratio, MAX_RATIO_DEN};
use crate::window_counter::{
    lemma_advance_preserves_empty, lemma_advance_preserves_nonneg, spec_add, spec_advance, spec_clear,
    spec_total, WindowedCounter, NUM_BUCKETS,
};

verus! {

/// A maximum failure rate: a well-formed ratio within `[0, 1]`.
pub open spec fn valid_max_rate(r: Ratio) -> bool {
    r.wf() && r.num <= r.den
}

/// Punishes an endpoint when its failure rate over a trailing window exceeds
/// `max_rate`.
///
/// `requests` counts every recorded outcome and `failures` only the failed
/// ones, each over the same window. With no requests in the window the rate
/// is undefined (a floating-point rendering would divide zero by zero, and
/// the resulting not-a-number comparison would be false), so the policy
/// reports "not punished" when there is no traffic; this is intentional.
#[derive(Debug)]
pub struct SlidingFailureRate {
    /// The maximum allowable failure rate.
    pub max_rate: Ratio,
    /// Counts every recorded outcome over the window.
    pub requests: WindowedCounter,
    /// Counts the recorded failures over the window.
    pub failures: WindowedCounter,
}

impl SlidingFailureRate {
    /// Returns a new `SlidingFailureRate` policy over the given time window,
    /// in milliseconds. The returned policy will punish an endpoint if its
    /// failure rate over the window exceeds `max_rate`.
    ///
    /// Construction is refused (a fatal configuration error) unless
    /// `max_rate` is a well-formed ratio within `[0, 1]` and the window gives
    /// each bucket at least one millisecond.
    pub fn new(window_ms: u64, max_rate: Ratio) -> (result: Result<SlidingFailureRate, ConfigError>)
        ensures
            result is Ok <==> valid_max_rate(max_rate) && window_ms >= NUM_BUCKETS as u64,
            !valid_max_rate(max_rate) ==> result == Err::<SlidingFailureRate, _>(
                ConfigError::InvalidMaxRate,
            ),
            valid_max_rate(max_rate) && window_ms < NUM_BUCKETS as u64 ==> result
                == Err::<SlidingFailureRate, _>(ConfigError::WindowOutOfRange),
            result matches Ok(p) ==> {
                &&& p.inv()
                &&& p.max_rate == max_rate
                &&& p.clean()
                &&& p.requests@.epoch_ms == 0
                &&& p.requests@.active == 0
                &&& p.requests@.bucket_ms == window_ms as int / NUM_BUCKETS as int
                &&& p.failures@.epoch_ms == 0
                &&& p.failures@.active == 0
                &&& p.failures@.bucket_ms == window_ms as int / NUM_BUCKETS as int
            },
    {
        if !(1 <= max_rate.den && max_rate.den <= MAX_RATIO_DEN && max_rate.num <= max_rate.den) {
            return Err(ConfigError::InvalidMaxRate);
        }
        if window_ms < NUM_BUCKETS as u64 {
            return Err(ConfigError::WindowOutOfRange);
        }
        Ok(
            SlidingFailureRate {
                max_rate,
                requests: WindowedCounter::new(window_ms),
                failures: WindowedCounter::new(window_ms),
            },
        )
    }
}

impl Policy for SlidingFailureRate {
    open spec fn inv(&self) -> bool {
        &&& self.requests@.wf()
        &&& self.failures@.wf()
        &&& valid_max_rate(self.max_rate)
        &&& forall|i: int| 0 <= i < NUM_BUCKETS as int ==> self.requests@.buckets[i] >= 0i64
        &&& forall|i: int| 0 <= i < NUM_BUCKETS as int ==> self.failures@.buckets[i] >= 0i64
    }

    /// Punished exactly when there is traffic in the window and the failure
    /// fraction strictly exceeds the maximum rate.
    open spec fn verdict_at(&self, now_ms: u64) -> bool {
        let reqs = spec_total(self.requests@, now_ms as int);
        let fails = spec_total(self.failures@, now_ms as int);
        reqs > 0 && fails * self.max_rate.den > self.max_rate.num * reqs
    }

    open spec fn recorded_success(pre: Self, post: Self, now_ms: u64) -> bool {
        &&& post.max_rate == pre.max_rate
        &&& post.requests@ == spec_add(pre.requests@, now_ms as int, 1)
        &&& post.failures@ == pre.failures@
    }

    open spec fn recorded_failure(pre: Self, post: Self, now_ms: u64) -> bool {
        &&& post.max_rate == pre.max_rate
        &&& post.requests@ == spec_add(pre.requests@, now_ms as int, 1)
        &&& post.failures@ == spec_add(pre.failures@, now_ms as int, 1)
    }

    open spec fn queried(pre: Self, post: Self, now_ms: u64) -> bool {
        &&& post.max_rate == pre.max_rate
        &&& post.requests@ == spec_advance(pre.requests@, now_ms as int)
        &&& post.failures@ == spec_advance(pre.failures@, now_ms as int)
    }

    open spec fn did_reset(pre: Self, post: Self, now_ms: u64) -> bool {
        &&& post.max_rate == pre.max_rate
        &&& post.requests@ == spec_clear(pre.requests@, now_ms as int)
        &&& post.failures@ == spec_clear(pre.failures@, now_ms as int)
    }

    /// Clean: both counters hold nothing.
    open spec fn clean(&self) -> bool {
        &&& forall|i: int| 0 <= i < NUM_BUCKETS as int ==> self.requests@.buckets[i] == 0i64
        &&& forall|i: int| 0 <= i < NUM_BUCKETS as int ==> self.failures@.buckets[i] == 0i64
    }

    proof fn lemma_clean_not_punished(&self, now_ms: u64) {
        lemma_advance_preserves_empty(self.requests@, now_ms as int);
    }

    proof fn lemma_clean_queried(pre: Self, post: Self, now_ms: u64) {
        lemma_advance_preserves_empty(pre.requests@, now_ms as int);
        lemma_advance_preserves_empty(pre.failures@, now_ms as int);
    }

    fn record_success(&mut self, now_ms: u64) {
        proof {
            lemma_advance_preserves_nonneg(self.requests@, now_ms as int);
        }
        self.requests.add_at(now_ms, 1);
    }

    fn record_failure(&mut self, now_ms: u64) {
        proof {
            lemma_advance_preserves_nonneg(self.requests@, now_ms as int);
            lemma_advance_preserves_nonneg(self.failures@, now_ms as int);
        }
        self.requests.add_at(now_ms, 1);
        self.failures.add_at(now_ms, 1);
    }

    fn is_punished(&mut self, now_ms: u64) -> (punished: bool) {
        proof {
            lemma_advance_preserves_nonneg(self.requests@, now_ms as int);
            lemma_advance_preserves_nonneg(self.failures@, now_ms as int);
        }
        let reqs = self.requests.total_at(now_ms);
        let fails = self.failures.total_at(now_ms);
        if reqs <= 0 {
            false
        } else {
            proof {
                assert((fails as int) * (self.max_rate.den as int) <= (i64::MAX as int) * (
                MAX_RATIO_DEN as int)
                    && (fails as int) * (self.max_rate.den as int) >= (i64::MIN as int) * (
                MAX_RATIO_DEN as int)) by (nonlinear_arith)
                    requires
                        i64::MIN as int <= fails as int <= i64::MAX as int,
                        0 <= self.max_rate.den as int <= MAX_RATIO_DEN as int,
                ;
                assert((self.max_rate.num as int) * (reqs as int) <= (MAX_RATIO_DEN as int) * (
                i64::MAX as int)
                    && (self.max_rate.num as int) * (reqs as int) >= 0) by (nonlinear_arith)
                    requires
                        0 < reqs as int <= i64::MAX as int,
                        0 <= self.max_rate.num as int <= MAX_RATIO_DEN as int,
                ;
            }
            (fails as i128) * (self.max_rate.den as i128) > (self.max_rate.num as i128) * (reqs
                as i128)
        }
    }

    fn reset(&mut self, now_ms: u64) {
        self.requests.clear_at(now_ms);
        self.failures.clear_at(now_ms);
    }
}

/// Law: with no requests recorded in the window, the policy never punishes —
/// the undefined zero-over-zero rate compares as "not punished".
pub proof fn lemma_no_traffic_not_punished(p: SlidingFailureRate, now_ms: u64)
    requires
        p.inv(),
        spec_total(p.requests@, now_ms as int) == 0,
    ensures
        !p.verdict_at(now_ms),
{
}

} // verus!
