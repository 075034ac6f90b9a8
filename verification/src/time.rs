//! Expiry against the host's clock.
//!
//! The engine reads no clock. The host hands in the time, in seconds, and the
//! engine compares. Differences are taken over the integers, so that no pair
//! of times overflows.

use vstd::prelude::*;

verus! {

/// Whether more than `window` seconds lie between `since` and `now`.
pub open spec fn expired(since: i64, now: i64, window: i64) -> bool {
    now - since > window
}

/// Whether more than `window` seconds lie between `since` and `now`.
pub fn has_expired(since: i64, now: i64, window: i64) -> (r: bool)
    ensures
        r == expired(since, now, window),
{
    (now as i128) - (since as i128) > (window as i128)
}

} // verus!
