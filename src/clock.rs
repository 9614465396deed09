//! Wall-clock time, read as nanoseconds since the Unix epoch.

use vstd::prelude::*;

verus! {

/// The instant at which an entry inserted at `now` with time-to-live `ttl`
/// stops being valid. Instants past the largest representable one are
/// clamped to it, so such an entry never expires in practice.
pub open spec fn expiry_after(now: u128, ttl: Option<u128>) -> Option<u128> {
    match ttl {
        Some(d) => Some(
            if now + d > u128::MAX {
                u128::MAX
            } else {
                (now + d) as u128
            },
        ),
        None => None,
    }
}

/// Computes the absolute expiration instant of an entry inserted at `now`.
pub fn expires_at(now: u128, ttl: Option<u128>) -> (r: Option<u128>)
    ensures
        r == expiry_after(now, ttl),
{
    match ttl {
        Some(d) => Some(now.saturating_add(d)),
        None => None,
    }
}

/// Relies on `std::time::SystemTime::now`, read as nanoseconds since the
/// Unix epoch through `duration_since(UNIX_EPOCH)` and `as_nanos`; `None`
/// when the clock stands before the epoch. Nothing is promised of the
/// instant: the wall clock may be set back or forward at any time.
#[verifier::external_body]
fn wall_clock_nanos() -> Option<u128> {
    match std::time::SystemTime::now().duration_since(std::time::UNIX_EPOCH) {
        Ok(d) => Some(d.as_nanos()),
        Err(_) => None,
    }
}

/// The current wall-clock instant. A clock set before the Unix epoch reads
/// as the epoch itself.
pub fn current_time() -> u128 {
    match wall_clock_nanos() {
        Some(t) => t,
        None => 0,
    }
}

} // verus!
