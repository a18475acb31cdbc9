//! Points in time.
use vstd::prelude::*;

verus! {

/// A point in time as seconds since the Unix epoch and the nanoseconds
/// within that second.
pub type Instant = (i64, u32);

/// Whether `a` is strictly later than `b`.
pub open spec fn later(a: Instant, b: Instant) -> bool {
    a.0 > b.0 || (a.0 == b.0 && a.1 > b.1)
}

/// Whether `a` is strictly later than `b`.
pub fn is_later(a: Instant, b: Instant) -> (r: bool)
    ensures
        r == later(a, b),
{
    a.0 > b.0 || (a.0 == b.0 && a.1 > b.1)
}

} // verus!
