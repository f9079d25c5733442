//! A circuit breaker: an admission guard placed in front of a downstream
//! operation that tracks recent outcomes over a sliding time window and
//! temporarily refuses new work once a configurable policy judges the
//! dependency unhealthy.

use vstd::prelude::*;

pub mod clock;
pub mod policy;
pub mod service;
pub mod window_counter;

pub use policy::Policy;
pub use service::CircuitBreaker;

verus! {

/// Configures a [`CircuitBreaker`].
pub struct Config<P> {
    /// The policy used to determine whether the circuit breaker has tripped.
    pub policy: P,
    /// How long, in milliseconds, a breaker remains tripped once the policy
    /// determines it to be tripped.
    pub trip_for_ms: u64,
}

} // verus!
