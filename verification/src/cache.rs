//! The freshness rule of the file-backed, modification-time-gated cache that
//! spares the two subprocess-backed widgets a spawn: a stored value is fresh
//! while its age has not passed the widget's time-to-live.

use vstd::prelude::*;

verus! {

/// Time-to-live of a cached custom-command result, in seconds.
pub const COMMAND_CACHE_TTL_SECS: u64 = 10;

/// Time-to-live of a cached source-control lookup, in seconds.
pub const GIT_CACHE_TTL_SECS: u64 = 5;

/// Whether a cached value of the given age is still fresh: the age may equal
/// the time-to-live but not pass it. A fresh value is used as-is and no
/// subprocess is spawned; a stale one is recomputed.
pub fn cache_fresh(age_secs: u64, ttl_secs: u64) -> (r: bool)
    ensures
        r == (age_secs <= ttl_secs),
{
    age_secs <= ttl_secs
}

} // verus!
