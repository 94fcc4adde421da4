//! The canonical UTC instant: the single value every input form is reduced
//! to before it is encoded as a native timestamp.

use vstd::prelude::*;
use crate::error::Error;

verus! {

/// Seconds between 1601-01-01T00:00:00Z (the native epoch) and
/// 1970-01-01T00:00:00Z (the Unix epoch).
pub const EPOCH_DIFFERENCE: i64 = 11_644_473_600;

/// 100-nanosecond intervals in one second.
pub const INTERVALS_PER_SECOND: i64 = 10_000_000;

/// Smallest epoch-seconds value whose native encoding is representable:
/// the native epoch 1601-01-01T00:00:00Z itself.
pub const MIN_EPOCH_SECONDS: i64 = -11_644_473_600;

/// Largest epoch-seconds value whose native encoding still fits a signed
/// 64-bit count of 100-nanosecond intervals, that is
/// `i64::MAX / INTERVALS_PER_SECOND - EPOCH_DIFFERENCE`.
pub const MAX_EPOCH_SECONDS: i64 = 910_692_730_085;

/// Epoch seconds within the encodable range.
pub open spec fn spec_in_range(t: int) -> bool {
    MIN_EPOCH_SECONDS <= t <= MAX_EPOCH_SECONDS
}

/// A UTC point in time with second precision: the pivot between the input
/// forms and the native timestamp encoding.
#[derive(Clone, Copy, Debug, PartialEq, Eq, Structural)]
pub struct CanonicalInstant {
    pub secs: i64,
}

impl CanonicalInstant {
    /// The instant can be encoded as a native timestamp.
    pub open spec fn wf(self) -> bool {
        spec_in_range(self.secs as int)
    }
}

/// Validate an epoch integer and take it as the canonical instant.
/// Exactly the values inside the encodable range are accepted; every other
/// value is rejected as an invalid timestamp.
pub fn parse_epoch(t: i64) -> (r: Result<CanonicalInstant, Error>)
    ensures
        spec_in_range(t as int) <==> r is Ok,
        r matches Ok(ci) ==> ci.secs == t && ci.wf(),
        r matches Err(e) ==> e is InvalidTimestamp,
{
    if MIN_EPOCH_SECONDS <= t && t <= MAX_EPOCH_SECONDS {
        Ok(CanonicalInstant { secs: t })
    } else {
        Err(Error::InvalidTimestamp)
    }
}

} // verus!
