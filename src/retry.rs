//! How long a worker waits between two attempts to dial and authenticate.
//!
//! The proposal comes from an exponential backoff with random jitter; the
//! delay actually slept is that proposal capped at the maximum interval.
use vstd::prelude::*;

use backoff::backoff::Backoff;

verus! {

/// Upper bound, in milliseconds, of the wait between two attempts.
pub const MAX_RETRY_DELAY_MS: u64 = 4000;

#[verifier::external_type_specification]
#[verifier::external_body]
#[verifier::reject_recursive_types(C)]
pub struct ExExponentialBackoff<C>(backoff::exponential::ExponentialBackoff<C>);

#[verifier::external_type_specification]
#[verifier::external_body]
pub struct ExSystemClock(backoff::SystemClock);

/// The wait before the next attempt, given the backoff's proposal: the
/// proposal capped at the maximum, and the maximum when there is none.
pub open spec fn spec_retry_delay(proposed: Option<u64>) -> u64 {
    match proposed {
        Some(d) => if d <= MAX_RETRY_DELAY_MS {
            d
        } else {
            MAX_RETRY_DELAY_MS
        },
        None => MAX_RETRY_DELAY_MS,
    }
}

/// The wait before the next attempt, in milliseconds.
pub fn retry_delay_ms(proposed: Option<u64>) -> (r: u64)
    ensures
        r == spec_retry_delay(proposed),
        r <= MAX_RETRY_DELAY_MS,
{
    match proposed {
        Some(d) => if d <= MAX_RETRY_DELAY_MS {
            d
        } else {
            MAX_RETRY_DELAY_MS
        },
        None => MAX_RETRY_DELAY_MS,
    }
}

/// Relies on backoff's ExponentialBackoff: the crate's default initial
/// interval and growth, the interval capped at `max_interval_ms`, and the total
/// time spent retrying limited by `max_elapsed_ms` (no limit when `None`).
#[verifier::external_body]
pub(crate) fn new_retry_backoff(max_interval_ms: u64, max_elapsed_ms: Option<u64>) -> backoff::ExponentialBackoff {
    backoff::ExponentialBackoff {
        max_interval: std::time::Duration::from_millis(max_interval_ms),
        max_elapsed_time: max_elapsed_ms.map(std::time::Duration::from_millis),
        ..Default::default()
    }
}

/// Relies on backoff's Backoff::next_backoff: the next randomized interval, in
/// milliseconds. It is random, so nothing is stated of it.
#[verifier::external_body]
pub(crate) fn next_backoff_ms(b: &mut backoff::ExponentialBackoff) -> Option<u64> {
    match b.next_backoff() {
        Some(d) => Some(d.as_millis() as u64),
        None => None,
    }
}

} // verus!
