//! What the crate takes on trust: the random generator, the clock, and the
//! comparison of strings.
//!
//! Nothing is proved of these items. Each contract states what the
//! documentation of the function promises, and of the generator and the clock
//! only what holds of every result.

use crate::messages::Timestamp;
use rand::Rng;
use vstd::prelude::*;

verus! {

/// `str::eq` of the standard library: two strings are equal exactly when they
/// hold the same characters in the same order.
pub assume_specification[ <str as PartialEq>::eq ](a: &str, b: &str) -> (equal: bool)
    ensures
        equal == (a@ == b@),
;

/// Draws a number with `rand::Rng::random_range` from the generator of the
/// current thread (`rand::rng`).
///
/// `random_range` panics on an empty range, so the bounds must be in order.
/// It answers with a number of the inclusive range; which one is left open.
/// `rand::rng` itself panics in a thread whose generator the operating system
/// gives no seed.
#[verifier::external_body]
pub(crate) fn random_in(low: i32, high: i32) -> (drawn: i32)
    requires
        low <= high,
    ensures
        low <= drawn <= high,
{
    rand::rng().random_range(low..=high)
}

/// Reads the clock with `chrono::Utc::now` and splits the moment into whole
/// seconds (`DateTime::timestamp`) and the nanoseconds within the second
/// (`DateTime::timestamp_subsec_nanos`).
///
/// Nothing is claimed of the moment that comes back. `Utc::now` itself
/// panics on a machine whose clock is set before 1970.
#[verifier::external_body]
pub(crate) fn current_time() -> (now: Timestamp) {
    let moment = chrono::Utc::now();
    Timestamp { seconds: moment.timestamp(), nanos: moment.timestamp_subsec_nanos() as i32 }
}

} // verus!
