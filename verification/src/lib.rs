//! Verified core of a home-energy telemetry service.
//!
//! The library integrates two unreliable device feeds — a solar-inverter
//! HTTP status endpoint and an EV-charger WebSocket telemetry stream — into
//! one periodically refreshed snapshot pair.  Everything that decides or
//! computes lives here with a contract: the charger handshake computations,
//! the incremental status merge, the solar normalization, the retry and
//! staleness rules, and the clock-aligned scheduling arithmetic.  The thin
//! shell that performs the actual network I/O hands this library plain
//! values and carries its decisions out.

pub mod auth;
pub mod charger;
pub mod jsonio;
pub mod schedule;
pub mod solar;
pub mod store;
pub mod text;

use vstd::prelude::*;

verus! {

/// Freshness threshold for either snapshot, in milliseconds.  A snapshot
/// strictly older than this is stale; one aged exactly this much is not.
pub const STALE_AFTER_MS: i64 = 30_000;

/// A snapshot aged `age_ms` milliseconds is stale exactly when its age
/// strictly exceeds [`STALE_AFTER_MS`]; an age of exactly 30.000 s is fresh.
pub fn is_stale(age_ms: i64) -> (r: bool)
    ensures
        r <==> age_ms > STALE_AFTER_MS,
{
    age_ms > STALE_AFTER_MS
}

} // verus!
