//! The one nondeterministic input of the library: a monotonic clock.
//!
//! Every algorithm in this crate is verified over explicit millisecond
//! timestamps; these trusted items only produce such timestamps. Nothing is
//! promised about the values they return, so every caller is verified for
//! every possible reading of the clock.

use vstd::prelude::*;

verus! {

/// Declares `tokio::time::Instant` as an opaque type: a monotonic timestamp
/// the verified code carries around but never looks inside.
#[verifier::external_type_specification]
#[verifier::external_body]
pub struct ExInstant(tokio::time::Instant);

/// Relies on `tokio::time::Instant::now`: an opaque monotonic timestamp.
#[verifier::external_body]
pub fn instant_now() -> tokio::time::Instant {
    tokio::time::Instant::now()
}

/// Relies on `tokio::time::Instant::duration_since` (which saturates to a
/// zero duration when `later` precedes `earlier`) and
/// `std::time::Duration::as_millis`: the number of whole milliseconds from
/// `earlier` to `later`, saturated to `u64::MAX`.
#[verifier::external_body]
pub fn millis_between(earlier: &tokio::time::Instant, later: &tokio::time::Instant) -> u64 {
    let ms = later.duration_since(*earlier).as_millis();
    u64::try_from(ms).unwrap_or(u64::MAX)
}

} // verus!
