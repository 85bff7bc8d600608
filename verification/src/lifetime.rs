//! Bounded-lifetime storage discipline: every entry lives in a tier whose
//! remaining lifetime (measured in ledgers) must be renewed on use, or the
//! entry is reclaimed.  Renewal is conditional: a region is extended to a
//! fixed window only when its remaining lifetime has fallen below a
//! threshold; otherwise it is left alone.

use vstd::prelude::*;

verus! {

/// One day's worth of ledgers.
pub const DAY_IN_LEDGERS: u32 = 17280;

/// A configuration-region renewal triggers once less than this many ledgers remain.
pub const INSTANCE_TTL_THRESHOLD: u32 = 7 * DAY_IN_LEDGERS;

/// A triggered configuration-region renewal extends the lifetime to this many ledgers.
pub const INSTANCE_TTL_EXTEND: u32 = 30 * DAY_IN_LEDGERS;

/// A voter-record renewal triggers once less than this many ledgers remain.
pub const PERSISTENT_TTL_THRESHOLD: u32 = 7 * DAY_IN_LEDGERS;

/// A triggered voter-record renewal extends the lifetime to this many ledgers.
pub const PERSISTENT_TTL_EXTEND: u32 = 30 * DAY_IN_LEDGERS;

/// The lifetime a storage region has after a conditional renewal: extended
/// to `extension` when it had dropped below `threshold`, untouched otherwise.
pub open spec fn spec_renew(remaining: u32, threshold: u32, extension: u32) -> u32 {
    if remaining < threshold {
        extension
    } else {
        remaining
    }
}

/// Conditionally renew a storage region's remaining lifetime.  Called by
/// every initializing and mutating operation on the tier it touches; pure
/// reads never renew.
pub fn renew_lifetime(remaining: u32, threshold: u32, extension: u32) -> (renewed: u32)
    ensures
        renewed == spec_renew(remaining, threshold, extension),
{
    if remaining < threshold {
        extension
    } else {
        remaining
    }
}

} // verus!
