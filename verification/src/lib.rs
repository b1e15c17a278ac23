//! A client-side fetch/cache/fallback pipeline for repository listings.
//!
//! The library decides, on every refresh trigger, whether a persisted cache
//! entry is fresh enough to serve directly, reconciles network results with a
//! bundled static reference set (the sole source of screenshot links), and
//! degrades through the cache down to the static set so that the caller always
//! receives a usable list, never an error.
//!
//! All I/O (the HTTP request, the durable key-value store, the wall clock)
//! lives outside the library; the functions here take the values those
//! sources produced and are verified for every such value.

use vstd::prelude::*;

pub mod fallback;
pub mod merge;
pub mod model;
pub mod pipeline;

verus! {

/// Freshness window in seconds: a cache entry older than this is not served
/// without first attempting a network refresh.
pub const CACHE_TTL_SECS: u64 = 900;

/// Elapsed seconds since `fetched_at`, clamped at zero if the clock moved
/// backwards.
pub open spec fn spec_age_secs(fetched_at: u64, now: u64) -> u64 {
    if now >= fetched_at {
        (now - fetched_at) as u64
    } else {
        0
    }
}

/// Whether a cache entry fetched at `fetched_at` is too old to serve
/// directly when the clock reads `now`.
pub open spec fn spec_is_stale(fetched_at: u64, now: u64) -> bool {
    spec_age_secs(fetched_at, now) > CACHE_TTL_SECS
}

/// Whether a cache entry fetched at `fetched_at` has outlived the freshness
/// window at wall-clock time `now` (both in seconds since the epoch).
pub fn is_stale(fetched_at: u64, now: u64) -> (stale: bool)
    ensures
        stale == spec_is_stale(fetched_at, now),
{
    now.saturating_sub(fetched_at) > CACHE_TTL_SECS
}

} // verus!
