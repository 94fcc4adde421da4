//! The native timestamp encoding: a 64-bit count of 100-nanosecond
//! intervals since 1601-01-01T00:00:00Z, split into a low and a high
//! 32-bit word for the OS call.

use vstd::prelude::*;
use vstd::arithmetic::div_mod::lemma_div_by_multiple;
use vstd::arithmetic::div_mod::lemma_fundamental_div_mod;
use vstd::arithmetic::mul::lemma_mul_inequality;
use crate::instant::CanonicalInstant;
use crate::instant::EPOCH_DIFFERENCE;
use crate::instant::INTERVALS_PER_SECOND;
use crate::instant::MAX_EPOCH_SECONDS;
use crate::instant::spec_in_range;

verus! {

/// The OS-native timestamp: the interval count split into two unsigned
/// 32-bit words, exactly as the OS call takes them.
#[derive(Clone, Copy, Debug, PartialEq, Eq, Structural)]
pub struct NativeTimestamp {
    pub low: u32,
    pub high: u32,
}

impl NativeTimestamp {
    /// The 64-bit interval count the two words encode.
    pub open spec fn value(self) -> int {
        self.low + self.high * 0x1_0000_0000
    }
}

/// The interval count of the instant `t` seconds after the Unix epoch.
pub open spec fn spec_intervals_of(t: int) -> int {
    (t + EPOCH_DIFFERENCE) * INTERVALS_PER_SECOND
}

/// The instant, in epoch seconds, of an interval count: the inverse of
/// `spec_intervals_of` at second granularity.
pub open spec fn spec_epoch_of_intervals(v: int) -> int {
    v / (INTERVALS_PER_SECOND as int) - EPOCH_DIFFERENCE
}

/// Round-trip law: an epoch value inside the encodable range survives the
/// conversion to a native interval count and back unchanged.
pub proof fn lemma_epoch_round_trip(t: int)
    requires
        spec_in_range(t),
    ensures
        spec_epoch_of_intervals(spec_intervals_of(t)) == t,
{
    lemma_div_by_multiple(t + EPOCH_DIFFERENCE, INTERVALS_PER_SECOND as int);
}

/// Encode a canonical instant as the native timestamp: shift the epoch to
/// 1601, convert seconds to 100-nanosecond intervals in the signed 64-bit
/// domain, and split the count into its low and high 32-bit words.
pub fn datetime_to_filetime(instant: CanonicalInstant) -> (r: NativeTimestamp)
    requires
        instant.wf(),
    ensures
        r.value() == spec_intervals_of(instant.secs as int),
        spec_epoch_of_intervals(r.value()) == instant.secs,
        r.low == spec_intervals_of(instant.secs as int) % 0x1_0000_0000,
        r.high == spec_intervals_of(instant.secs as int) / 0x1_0000_0000,
{
    let shifted: i64 = instant.secs + EPOCH_DIFFERENCE;
    proof {
        lemma_mul_inequality(
            shifted as int,
            MAX_EPOCH_SECONDS + EPOCH_DIFFERENCE,
            INTERVALS_PER_SECOND as int,
        );
        lemma_mul_inequality(0, shifted as int, INTERVALS_PER_SECOND as int);
    }
    let intervals: i64 = shifted * INTERVALS_PER_SECOND;
    let v: u64 = intervals as u64;
    let low: u32 = (v & 0xFFFF_FFFF) as u32;
    let high: u32 = (v >> 32) as u32;
    proof {
        assert(low == v % 0x1_0000_0000 && high == v / 0x1_0000_0000) by (bit_vector)
            requires
                low == (v & 0xFFFF_FFFF) as u32,
                high == (v >> 32u64) as u32,
        ;
        lemma_fundamental_div_mod(v as int, 0x1_0000_0000);
        lemma_epoch_round_trip(instant.secs as int);
    }
    NativeTimestamp { low, high }
}

/// Decode a native timestamp back to epoch seconds: join the two words,
/// divide the interval count by the intervals per second, and shift the
/// epoch back to 1970. This is the inverse of step 3 of the encoding, at
/// second granularity.
pub fn filetime_to_epoch(n: NativeTimestamp) -> (r: i64)
    ensures
        r == spec_epoch_of_intervals(n.value()),
{
    let lo: u64 = n.low as u64;
    let hi: u64 = n.high as u64;
    let v: u64 = lo | (hi << 32);
    proof {
        assert(v == lo + hi * 0x1_0000_0000 && v / 10_000_000 <= 1_844_674_407_370)
            by (bit_vector)
            requires
                v == (lo | (hi << 32u64)),
                lo < 0x1_0000_0000,
                hi < 0x1_0000_0000,
        ;
    }
    let q: u64 = v / 10_000_000;
    (q as i64) - EPOCH_DIFFERENCE
}

} // verus!
