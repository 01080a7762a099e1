//! The protocol migration decision.
//!
//! Two single-precision values decide which protocol an installation prefers: a
//! threshold that a version cache delivers, and a number drawn once per
//! installation and kept in the settings. The new protocol is preferred when the
//! drawn number is below the threshold.
//!
//! Both values are carried by their IEEE 754 binary32 bit pattern, so that the
//! comparison is integer arithmetic with an exact statement.

use vstd::prelude::*;

verus! {

/// Bit pattern of the single-precision value one.
pub const ONE_BITS: u32 = 0x3F80_0000;

/// Bit pattern of positive infinity; every larger magnitude is not a number.
pub const INFINITY_BITS: u32 = 0x7F80_0000;

/// The sign bit of a binary32 pattern.
pub const SIGN_BIT: u32 = 0x8000_0000;

/// A single-precision value, held as its IEEE 754 binary32 bit pattern.
///
/// The derived equality compares bit patterns. It is not the numeric equality:
/// the two zeros differ, and a pattern that is not a number equals itself.
#[derive(Clone, Copy, Debug, PartialEq, Eq, Structural)]
pub struct Binary32 {
    pub bits: u32,
}

impl Binary32 {
    /// The pattern without its sign bit.
    pub open spec fn magnitude(self) -> int {
        self.bits as int % 0x8000_0000
    }

    /// Whether the sign bit is set.
    pub open spec fn sign_set(self) -> bool {
        self.bits >= SIGN_BIT
    }

    /// Whether the pattern encodes no number.
    pub open spec fn is_nan(self) -> bool {
        self.magnitude() > INFINITY_BITS
    }

    /// An integer that orders the patterns as the numbers they encode: for two
    /// patterns that are numbers, the smaller number has the smaller rank, and
    /// the two zeros share rank 0.
    pub open spec fn rank(self) -> int {
        if self.sign_set() {
            -self.magnitude()
        } else {
            self.magnitude()
        }
    }

    /// The numeric `<`: false as soon as either side is not a number.
    pub open spec fn less_than(self, other: Binary32) -> bool {
        !self.is_nan() && !other.is_nan() && self.rank() < other.rank()
    }

    /// Whether the value is a number that is at least zero.
    pub open spec fn is_non_negative(self) -> bool {
        !self.is_nan() && self.rank() >= 0
    }

    /// Whether the value is zero, of either sign.
    pub open spec fn is_zero(self) -> bool {
        self.magnitude() == 0
    }

    /// Whether the value lies in the half-open interval from zero to one.
    pub open spec fn in_unit_interval(self) -> bool {
        0 <= self.rank() < ONE_BITS
    }

    /// The value with the given bit pattern.
    pub fn from_bits(bits: u32) -> (value: Binary32)
        ensures
            value.bits == bits,
    {
        Binary32 { bits }
    }

    /// The value one.
    pub fn one() -> (value: Binary32)
        ensures
            value.bits == ONE_BITS,
    {
        Binary32 { bits: ONE_BITS }
    }

    /// The numeric comparison `self < other`.
    pub fn lt(self, other: Binary32) -> (below: bool)
        ensures
            below == self.less_than(other),
    {
        let own: u32 = self.bits % SIGN_BIT;
        let others: u32 = other.bits % SIGN_BIT;
        if own > INFINITY_BITS || others > INFINITY_BITS {
            return false;
        }
        let own_rank: i64 = if self.bits >= SIGN_BIT {
            -(own as i64)
        } else {
            own as i64
        };
        let others_rank: i64 = if other.bits >= SIGN_BIT {
            -(others as i64)
        } else {
            others as i64
        };
        own_rank < others_rank
    }
}

/// What a version cache delivers to the migration decision.
#[derive(Clone, Copy, Debug, PartialEq, Eq, Structural)]
pub struct VersionCache {
    /// The share of installations that prefer the new protocol, if the cache
    /// holds one.
    pub threshold: Option<Binary32>,
}

/// The threshold in force: the one the cache holds, and one where the cache
/// could not be read or holds none.
pub open spec fn threshold_in_force(cache: Option<VersionCache>) -> Binary32 {
    match cache {
        Some(VersionCache { threshold: Some(threshold) }) => threshold,
        _ => Binary32 { bits: ONE_BITS },
    }
}

/// Whether an installation with this draw prefers the new protocol under this
/// threshold.
pub open spec fn prefers_new_protocol(draw: Binary32, threshold: Binary32) -> bool {
    draw.less_than(threshold)
}

/// The threshold to decide with. `cache` is `None` where the version cache could
/// not be read.
pub fn migration_threshold(cache: Option<VersionCache>) -> (threshold: Binary32)
    ensures
        threshold == threshold_in_force(cache),
{
    match cache {
        Some(VersionCache { threshold: Some(threshold) }) => threshold,
        _ => Binary32::one(),
    }
}

/// Decides whether the new protocol is the default for this installation.
pub fn default_to_new_protocol(draw: Binary32, threshold: Binary32) -> (preferred: bool)
    ensures
        preferred == prefers_new_protocol(draw, threshold),
{
    draw.lt(threshold)
}

/// Without a threshold from the cache, every draw from the unit interval prefers
/// the new protocol.
pub proof fn lemma_missing_threshold_prefers_new_protocol(
    cache: Option<VersionCache>,
    draw: Binary32,
)
    requires
        cache is None || cache->0.threshold is None,
        draw.in_unit_interval(),
    ensures
        prefers_new_protocol(draw, threshold_in_force(cache)),
{
}

/// Under a threshold of zero no draw that is at least zero prefers the new
/// protocol.
pub proof fn lemma_zero_threshold_never_prefers_new_protocol(draw: Binary32, threshold: Binary32)
    requires
        threshold.is_zero(),
        draw.is_non_negative(),
    ensures
        !prefers_new_protocol(draw, threshold),
{
}

} // verus!
