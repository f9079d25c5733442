//! The admission-gating state machine: before every dispatch the breaker
//! consults its policy, trips for a fixed cooldown once the policy reports
//! punishment, and records each completed outcome.
//!
//! The surrounding transport (readiness polling, timers, the downstream
//! service itself) performs the waiting and the dispatching; this module
//! makes every decision, from explicit millisecond timestamps.

use vstd::prelude::*;

use crate::policy::Policy;
use crate::Config;

verus! {

/// The breaker's answer to one admission check.
#[derive(Clone, Copy, Debug, PartialEq, Eq, Structural)]
pub enum Admission {
    /// The breaker admits the request. The caller should still defer to the
    /// downstream collaborator's own readiness signal before dispatching.
    Admitted,
    /// The breaker is tripped: the request is refused, and the caller must
    /// suspend and check again no earlier than `wake_at_ms`.
    Refused { wake_at_ms: u64 },
}

/// `now_ms + trip_for_ms`, saturated to `u64::MAX`.
pub open spec fn spec_deadline(now_ms: int, trip_for_ms: int) -> int {
    if now_ms + trip_for_ms > u64::MAX as int {
        u64::MAX as int
    } else {
        now_ms + trip_for_ms
    }
}

/// An admission guard in front of a downstream operation: `Closed` admits,
/// `Tripped` refuses until a deadline.
pub struct CircuitBreaker<P> {
    /// The policy consulted before every admission, and the cooldown.
    pub config: Config<P>,
    /// Whether the breaker is currently tripped.
    pub tripped: bool,
    /// When the current trip ends, in milliseconds on the caller's timeline;
    /// meaningful only while `tripped`.
    pub tripped_until_ms: u64,
}

impl<P: Policy> CircuitBreaker<P> {
    /// The breaker is well-formed whenever its policy is.
    pub open spec fn inv(&self) -> bool {
        self.config.policy.inv()
    }

    /// Returns a breaker in the `Closed` state over the given configuration.
    pub fn new(config: Config<P>) -> (breaker: CircuitBreaker<P>)
        requires
            config.policy.inv(),
        ensures
            breaker.inv(),
            breaker.config == config,
            !breaker.tripped,
    {
        CircuitBreaker { config, tripped: false, tripped_until_ms: 0 }
    }

    /// Whether the breaker is currently tripped. Dispatching while tripped is
    /// a contract violation; a correct caller re-checks admission immediately
    /// before every dispatch.
    pub fn is_tripped(&self) -> (tripped: bool)
        ensures
            tripped == self.tripped,
    {
        self.tripped
    }

    /// One admission check at `now_ms`.
    ///
    /// If the policy currently reports punishment, the breaker (re-)arms the
    /// cooldown — tripping for `trip_for_ms` from `now_ms` — and resets the
    /// policy to a clean slate. A tripped breaker refuses admission until its
    /// deadline and becomes `Closed` again at the first check at or past it.
    pub fn check_admission(&mut self, now_ms: u64) -> (admission: Admission)
        requires
            old(self).inv(),
        ensures
            final(self).inv(),
            final(self).config.trip_for_ms == old(self).config.trip_for_ms,
            ({
                let punished = old(self).config.policy.verdict_at(now_ms);
                let until = if punished {
                    spec_deadline(now_ms as int, old(self).config.trip_for_ms as int)
                } else {
                    old(self).tripped_until_ms as int
                };
                &&& final(self).tripped_until_ms as int == until
                &&& (if (punished || old(self).tripped) && (now_ms as int) < until {
                    final(self).tripped && admission == (Admission::Refused {
                        wake_at_ms: final(self).tripped_until_ms,
                    })
                } else {
                    !final(self).tripped && admission == Admission::Admitted
                })
                &&& (punished ==> final(self).config.policy.clean())
                &&& (!punished ==> P::queried(
                    old(self).config.policy,
                    final(self).config.policy,
                    now_ms,
                ))
            }),
    {
        let punished = self.config.policy.is_punished(now_ms);
        if punished {
            // trip the breaker and re-evaluate health from a clean slate once
            // the cooldown elapses
            self.tripped = true;
            self.config.policy.reset(now_ms);
            self.tripped_until_ms = if now_ms > u64::MAX - self.config.trip_for_ms {
                u64::MAX
            } else {
                now_ms + self.config.trip_for_ms
            };
        }
        if self.tripped {
            // still waiting out the cooldown?
            if now_ms < self.tripped_until_ms {
                return Admission::Refused { wake_at_ms: self.tripped_until_ms };
            }
            self.tripped = false;
        }
        Admission::Admitted
    }

    /// Observes the completed outcome of one dispatched request: records it
    /// with the policy, then yields it unchanged. The breaker never alters
    /// the downstream operation's output.
    pub fn record_outcome<T, E>(&mut self, now_ms: u64, outcome: Result<T, E>) -> (forwarded:
        Result<T, E>)
        requires
            old(self).inv(),
        ensures
            final(self).inv(),
            forwarded == outcome,
            final(self).tripped == old(self).tripped,
            final(self).tripped_until_ms == old(self).tripped_until_ms,
            final(self).config.trip_for_ms == old(self).config.trip_for_ms,
            outcome is Ok ==> P::recorded_success(
                old(self).config.policy,
                final(self).config.policy,
                now_ms,
            ),
            outcome is Err ==> P::recorded_failure(
                old(self).config.policy,
                final(self).config.policy,
                now_ms,
            ),
    {
        match outcome {
            Ok(value) => {
                self.config.policy.record_success(now_ms);
                Ok(value)
            },
            Err(error) => {
                self.config.policy.record_failure(now_ms);
                Err(error)
            },
        }
    }
}

} // verus!
