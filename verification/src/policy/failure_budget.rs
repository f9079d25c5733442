//! The budget form of the sliding failure-rate policy: a fixed baseline of
//! failures is always tolerated regardless of traffic volume, on top of a
//! proportional allowance earned by successes.

use vstd::prelude::*;

use crate::policy::{ConfigError, Policy, Ratio, MAX_RATIO_DEN};
use crate::window_counter::{
    lemma_advance_preserves_empty, spec_add, spec_advance, spec_clear, spec_total, WindowedCounter,
};

verus! {

/// The smallest accepted window, in milliseconds.
pub const MIN_BUDGET_WINDOW_MS: u64 = 1_000;

/// The largest accepted window, in milliseconds; bounding it keeps the bucket
/// granularity meaningful.
pub const MAX_BUDGET_WINDOW_MS: u64 = 60_000;

/// The largest accepted baseline failure rate, per second; bounding it keeps
/// the derived allowance free of overflow when multiplied by the window
/// length and the failure weight.
pub const MAX_FAILURES_PER_SECOND: u64 = 1_000_000;

/// A window between one and sixty seconds.
pub open spec fn valid_budget_window(window_ms: u64) -> bool {
    MIN_BUDGET_WINDOW_MS <= window_ms <= MAX_BUDGET_WINDOW_MS
}

/// A failure percent: a well-formed ratio within `[0, 1000]`. Values at most
/// one mean "at most this fraction of successes may fail"; larger values mean
/// "up to this many failures tolerated per success".
pub open spec fn valid_failure_percent(r: Ratio) -> bool {
    r.wf() && r.num <= 1000 * r.den
}

/// Punishes an endpoint once the weighted failures in the trailing window
/// outweigh the successes by more than a fixed baseline allowance.
///
/// Each success adds `success_weight` to one rolling counter and each failure
/// subtracts `failure_weight` from it; the ratio `success_weight /
/// failure_weight` encodes the tolerated failure proportion. The policy is
/// punished exactly when `baseline_allowance` plus the windowed sum is
/// negative.
#[derive(Debug)]
pub struct FailureBudget {
    /// The rolling net weight of recorded outcomes.
    pub counter: WindowedCounter,
    /// Added to the counter for each success.
    pub success_weight: i64,
    /// Subtracted from the counter for each failure.
    pub failure_weight: i64,
    /// Failures always tolerated regardless of traffic volume: a fixed floor
    /// set at construction and never reset.
    pub baseline_allowance: i64,
}

impl FailureBudget {
    /// Returns a new `FailureBudget` policy over the given time window, in
    /// milliseconds, tolerating `allowed_failures_per_second` as a fixed
    /// baseline and `failure_percent` failures in proportion to successes.
    ///
    /// Construction is refused (a fatal configuration error) unless the
    /// window lies between one and sixty seconds, `failure_percent` is a
    /// well-formed ratio within `[0, 1000]`, and the baseline rate is small
    /// enough that the derived allowance cannot overflow; the checks happen
    /// in that order.
    pub fn new(
        window_ms: u64,
        allowed_failures_per_second: u64,
        failure_percent: Ratio,
    ) -> (result: Result<FailureBudget, ConfigError>)
        ensures
            result is Ok <==> valid_budget_window(window_ms) && valid_failure_percent(
                failure_percent,
            ) && allowed_failures_per_second <= MAX_FAILURES_PER_SECOND,
            !valid_budget_window(window_ms) ==> result == Err::<FailureBudget, _>(
                ConfigError::WindowOutOfRange,
            ),
            valid_budget_window(window_ms) && !valid_failure_percent(failure_percent) ==> result
                == Err::<FailureBudget, _>(ConfigError::InvalidFailurePercent),
            valid_budget_window(window_ms) && valid_failure_percent(failure_percent)
                && allowed_failures_per_second > MAX_FAILURES_PER_SECOND ==> result == Err::<
                FailureBudget,
                _,
            >(ConfigError::AllowanceTooLarge),
            result matches Ok(p) ==> {
                &&& p.inv()
                &&& p.success_weight == failure_percent.num
                &&& p.failure_weight == failure_percent.den
                &&& p.baseline_allowance == allowed_failures_per_second * (window_ms as int
                    / 1000) * failure_percent.den
                &&& p.clean()
                &&& p.counter@.epoch_ms == 0
                &&& p.counter@.active == 0
                &&& p.counter@.bucket_ms == window_ms as int
                    / crate::window_counter::NUM_BUCKETS as int
            },
    {
        if window_ms < MIN_BUDGET_WINDOW_MS || window_ms > MAX_BUDGET_WINDOW_MS {
            return Err(ConfigError::WindowOutOfRange);
        }
        if !(1 <= failure_percent.den && failure_percent.den <= MAX_RATIO_DEN
            && failure_percent.num <= 1000 * failure_percent.den) {
            return Err(ConfigError::InvalidFailurePercent);
        }
        if allowed_failures_per_second > MAX_FAILURES_PER_SECOND {
            return Err(ConfigError::AllowanceTooLarge);
        }
        let window_seconds: u64 = window_ms / 1000;
        proof {
            vstd::arithmetic::div_mod::lemma_div_is_ordered(
                window_ms as int,
                MAX_BUDGET_WINDOW_MS as int,
                1000,
            );
            vstd::arithmetic::div_mod::lemma_div_is_ordered(
                MIN_BUDGET_WINDOW_MS as int,
                window_ms as int,
                1000,
            );
            assert((allowed_failures_per_second as int) * (window_seconds as int) <= (
            MAX_FAILURES_PER_SECOND as int) * 60) by (nonlinear_arith)
                requires
                    0 <= allowed_failures_per_second as int <= MAX_FAILURES_PER_SECOND as int,
                    0 <= window_seconds as int <= 60,
            ;
            assert((allowed_failures_per_second as int) * (window_seconds as int) * (
            failure_percent.den as int) <= (MAX_FAILURES_PER_SECOND as int) * 60 * (MAX_RATIO_DEN
                as int)) by (nonlinear_arith)
                requires
                    0 <= (allowed_failures_per_second as int) * (window_seconds as int) <= (
                    MAX_FAILURES_PER_SECOND as int) * 60,
                    0 <= failure_percent.den as int <= MAX_RATIO_DEN as int,
            ;
        }
        let per_window: u64 = allowed_failures_per_second * window_seconds;
        let baseline: u64 = per_window * failure_percent.den;
        Ok(
            FailureBudget {
                counter: WindowedCounter::new(window_ms),
                success_weight: failure_percent.num as i64,
                failure_weight: failure_percent.den as i64,
                baseline_allowance: baseline as i64,
            },
        )
    }
}

impl Policy for FailureBudget {
    open spec fn inv(&self) -> bool {
        &&& self.counter@.wf()
        &&& 0 <= self.success_weight
        &&& 1 <= self.failure_weight
        &&& 0 <= self.baseline_allowance
    }

    /// Punished exactly when the baseline allowance plus the windowed net
    /// weight is negative.
    open spec fn verdict_at(&self, now_ms: u64) -> bool {
        self.baseline_allowance + spec_total(self.counter@, now_ms as int) < 0
    }

    open spec fn recorded_success(pre: Self, post: Self, now_ms: u64) -> bool {
        &&& post.counter@ == spec_add(pre.counter@, now_ms as int, pre.success_weight as int)
        &&& post.success_weight == pre.success_weight
        &&& post.failure_weight == pre.failure_weight
        &&& post.baseline_allowance == pre.baseline_allowance
    }

    open spec fn recorded_failure(pre: Self, post: Self, now_ms: u64) -> bool {
        &&& post.counter@ == spec_add(pre.counter@, now_ms as int, -(pre.failure_weight as int))
        &&& post.success_weight == pre.success_weight
        &&& post.failure_weight == pre.failure_weight
        &&& post.baseline_allowance == pre.baseline_allowance
    }

    open spec fn queried(pre: Self, post: Self, now_ms: u64) -> bool {
        &&& post.counter@ == spec_advance(pre.counter@, now_ms as int)
        &&& post.success_weight == pre.success_weight
        &&& post.failure_weight == pre.failure_weight
        &&& post.baseline_allowance == pre.baseline_allowance
    }

    /// The rolling counter is re-zeroed; the baseline allowance is a fixed
    /// construction-time constant and is not reset.
    open spec fn did_reset(pre: Self, post: Self, now_ms: u64) -> bool {
        &&& post.counter@ == spec_clear(pre.counter@, now_ms as int)
        &&& post.success_weight == pre.success_weight
        &&& post.failure_weight == pre.failure_weight
        &&& post.baseline_allowance == pre.baseline_allowance
    }

    /// Clean: the counter holds nothing.
    open spec fn clean(&self) -> bool {
        forall|i: int|
            0 <= i < crate::window_counter::NUM_BUCKETS as int ==> self.counter@.buckets[i]
                == 0i64
    }

    proof fn lemma_clean_not_punished(&self, now_ms: u64) {
        lemma_advance_preserves_empty(self.counter@, now_ms as int);
    }

    proof fn lemma_clean_queried(pre: Self, post: Self, now_ms: u64) {
        lemma_advance_preserves_empty(pre.counter@, now_ms as int);
    }

    fn record_success(&mut self, now_ms: u64) {
        let w = self.success_weight;
        self.counter.add_at(now_ms, w);
    }

    fn record_failure(&mut self, now_ms: u64) {
        let w = self.failure_weight;
        self.counter.add_at(now_ms, -w);
    }

    fn is_punished(&mut self, now_ms: u64) -> (punished: bool) {
        let total = self.counter.total_at(now_ms);
        (self.baseline_allowance as i128) + (total as i128) < 0
    }

    fn reset(&mut self, now_ms: u64) {
        self.counter.clear_at(now_ms);
    }
}

/// Law: with nothing recorded in the window, the baseline allowance alone
/// keeps the policy unpunished.
pub proof fn lemma_budget_no_traffic_not_punished(p: FailureBudget, now_ms: u64)
    requires
        p.inv(),
        forall|i: int|
            0 <= i < crate::window_counter::NUM_BUCKETS as int ==> p.counter@.buckets[i] == 0i64,
    ensures
        !p.verdict_at(now_ms),
{
    lemma_advance_preserves_empty(p.counter@, now_ms as int);
}

} // verus!
