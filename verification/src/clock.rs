//! Time limits.

use std::time::Duration;
use vstd::prelude::*;

verus! {

/// The `Duration` that spans `secs` whole seconds.
pub uninterp spec fn seconds(secs: u64) -> Duration;

/// `Duration::from_secs`.
///
/// Claims only that the result is the duration named [`seconds`] of the
/// argument: a function of the argument alone.
#[verifier::external_body]
pub(crate) fn duration_from_secs(secs: u64) -> (duration: Duration)
    ensures
        duration == seconds(secs),
{
    Duration::from_secs(secs)
}

} // verus!
