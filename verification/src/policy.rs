//! Policies decide, from recorded outcomes, whether the guarded dependency
//! should currently be punished (denied traffic).

use vstd::prelude::*;

mod failure_budget;
mod failure_rate;

pub use failure_budget::FailureBudget;
pub use failure_rate::SlidingFailureRate;

verus! {

/// A non-negative rational number `num / den`, used for thresholds given as
/// fractions. Keeping thresholds rational lets every verdict be an exact
/// integer comparison.
#[derive(Clone, Copy, Debug, PartialEq, Eq, Structural)]
pub struct Ratio {
    pub num: u64,
    pub den: u64,
}

/// The largest denominator a [`Ratio`] threshold may use; bounding it keeps
/// every verdict comparison free of overflow.
pub const MAX_RATIO_DEN: u64 = 1_000_000;

impl Ratio {
    /// A denominator that is positive and small enough for overflow-free
    /// comparisons.
    pub open spec fn wf(self) -> bool {
        1 <= self.den <= MAX_RATIO_DEN
    }
}

/// A fatal configuration error: the system refuses to build a malformed
/// policy rather than run with undefined thresholds.
#[derive(Clone, Copy, Debug, PartialEq, Eq, Structural)]
pub enum ConfigError {
    /// The maximum failure rate must be a well-formed ratio in `[0, 1]`.
    InvalidMaxRate,
    /// The window must give each bucket at least one millisecond, and for the
    /// budget form must lie between one and sixty seconds.
    WindowOutOfRange,
    /// The failure percent must be a well-formed ratio in `[0, 1000]`.
    InvalidFailurePercent,
    /// The failure baseline must be small enough that the derived allowance
    /// cannot overflow.
    AllowanceTooLarge,
}

/// The decision interface consulted by a circuit breaker.
///
/// Every operation takes the present time as an explicit millisecond
/// timestamp on the caller's timeline, so each implementation's behaviour is
/// verified for every possible clock reading. The spec functions name, per
/// implementation, the invariant each operation preserves, the verdict
/// `is_punished` reports, and the exact effect of each operation on the
/// policy's state.
pub trait Policy: Sized {
    /// The well-formedness invariant of the policy's state.
    spec fn inv(&self) -> bool;

    /// The verdict that `is_punished` reports when called at `now_ms`.
    spec fn verdict_at(&self, now_ms: u64) -> bool;

    /// How `record_success` at `now_ms` takes the state `pre` to `post`.
    spec fn recorded_success(pre: Self, post: Self, now_ms: u64) -> bool;

    /// How `record_failure` at `now_ms` takes the state `pre` to `post`.
    spec fn recorded_failure(pre: Self, post: Self, now_ms: u64) -> bool;

    /// How `is_punished` at `now_ms` takes the state `pre` to `post`: it may
    /// expire stale buckets but never changes the logical event counts.
    spec fn queried(pre: Self, post: Self, now_ms: u64) -> bool;

    /// How `reset` at `now_ms` takes the state `pre` to `post`: history is
    /// discarded, configuration is kept.
    spec fn did_reset(pre: Self, post: Self, now_ms: u64) -> bool;

    /// A freshly reset state: no history is retained.
    spec fn clean(&self) -> bool;

    /// A clean policy punishes at no time.
    proof fn lemma_clean_not_punished(&self, now_ms: u64)
        requires
            self.inv(),
            self.clean(),
        ensures
            !self.verdict_at(now_ms),
    ;

    /// Querying a clean policy leaves it clean: with no history there is
    /// nothing to expire.
    proof fn lemma_clean_queried(pre: Self, post: Self, now_ms: u64)
        requires
            pre.inv(),
            pre.clean(),
            Self::queried(pre, post, now_ms),
        ensures
            post.clean(),
    ;

    /// Signals one successful outcome.
    fn record_success(&mut self, now_ms: u64)
        requires
            old(self).inv(),
        ensures
            final(self).inv(),
            Self::recorded_success(*old(self), *final(self), now_ms),
    ;

    /// Signals one failed outcome.
    fn record_failure(&mut self, now_ms: u64)
        requires
            old(self).inv(),
        ensures
            final(self).inv(),
            Self::recorded_failure(*old(self), *final(self), now_ms),
    ;

    /// Whether the dependency should currently be denied admission. May
    /// expire stale buckets, but never changes the logical event counts.
    fn is_punished(&mut self, now_ms: u64) -> (punished: bool)
        requires
            old(self).inv(),
        ensures
            final(self).inv(),
            punished == old(self).verdict_at(now_ms),
            Self::queried(*old(self), *final(self), now_ms),
    ;

    /// Clears the accumulated history: afterwards the policy is clean, so it
    /// punishes at no time until new outcomes are recorded.
    fn reset(&mut self, now_ms: u64)
        requires
            old(self).inv(),
        ensures
            final(self).inv(),
            final(self).clean(),
            Self::did_reset(*old(self), *final(self), now_ms),
    ;
}

} // verus!
