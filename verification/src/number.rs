//! Binary floating-point numbers, held by their bit patterns.
//!
//! The host takes volume, speed and pitch as IEEE 754 numbers. The
//! library never computes with them: it carries them, orders them, and
//! saturates them. All three need only the bit pattern, which is what
//! these types hold. `to_bits` and `from_bits` of the machine types
//! convert at the boundary.

use vstd::prelude::*;

verus! {

/// The bit that holds the sign of a single-precision number.
pub const SINGLE_SIGN: u32 = 0x8000_0000;

/// The pattern of positive infinity; a larger magnitude is not a number.
pub const SINGLE_INFINITY: u32 = 0x7f80_0000;

/// An IEEE 754 binary32 number, by its bit pattern.
#[derive(Debug, Clone, Copy, PartialEq, Eq, Structural)]
pub struct Single {
    pub bits: u32,
}

/// An IEEE 754 binary64 number, by its bit pattern.
#[derive(Debug, Clone, Copy, PartialEq, Eq, Structural)]
pub struct Double {
    pub bits: u64,
}

impl Single {
    /// Whether the sign bit is set.
    pub open spec fn negative(self) -> bool {
        self.bits >= SINGLE_SIGN
    }

    /// The pattern without its sign bit.
    pub open spec fn magnitude(self) -> int {
        if self.bits >= SINGLE_SIGN {
            self.bits - SINGLE_SIGN
        } else {
            self.bits as int
        }
    }

    /// Whether the pattern is a NaN: an all-ones exponent with a
    /// fraction that is not zero.
    pub open spec fn is_nan(self) -> bool {
        self.magnitude() > SINGLE_INFINITY
    }

    /// The place of a number on the number line, for patterns that are
    /// no NaN. Among patterns of one sign the magnitude grows with the
    /// number's absolute value, so the signed magnitude orders the
    /// numbers as IEEE 754 does, and both zeros share the place 0.
    pub open spec fn rank(self) -> int {
        if self.negative() {
            -self.magnitude()
        } else {
            self.magnitude()
        }
    }

    /// The IEEE 754 comparison `self < other`, which is false as soon
    /// as either side is a NaN.
    pub open spec fn lt(self, other: Single) -> bool {
        !self.is_nan() && !other.is_nan() && self.rank() < other.rank()
    }

    /// Whether `low <= self <= high` as IEEE 754 compares; false for a NaN.
    pub open spec fn within(self, low: Single, high: Single) -> bool {
        !self.is_nan() && !low.is_nan() && !high.is_nan() && low.rank() <= self.rank()
            <= high.rank()
    }

    /// Saturation into `[low, high]`: `low` where the number is less,
    /// `high` where it is greater, and else the number itself, which
    /// keeps the sign of a zero. A NaN is ordered against nothing and
    /// has no nearest bound; it saturates to `low`, so that the result
    /// lies in the range whatever came in.
    pub open spec fn clamp_to(self, low: Single, high: Single) -> Single {
        if self.is_nan() || self.lt(low) {
            low
        } else if high.lt(self) {
            high
        } else {
            self
        }
    }

    /// The number with the given bit pattern.
    pub fn from_bits(bits: u32) -> (number: Single)
        ensures
            number.bits == bits,
    {
        Single { bits }
    }

    /// The bit pattern of the number.
    pub fn to_bits(self) -> (bits: u32)
        ensures
            bits == self.bits,
    {
        self.bits
    }

    /// Whether the number is a NaN.
    pub fn nan(self) -> (answer: bool)
        ensures
            answer == self.is_nan(),
    {
        if self.bits >= SINGLE_SIGN {
            self.bits - SINGLE_SIGN > SINGLE_INFINITY
        } else {
            self.bits > SINGLE_INFINITY
        }
    }

    /// Whether `self < other` as IEEE 754 compares.
    pub fn less_than(self, other: Single) -> (answer: bool)
        ensures
            answer == self.lt(other),
    {
        if self.nan() || other.nan() {
            false
        } else if self.bits >= SINGLE_SIGN {
            if other.bits >= SINGLE_SIGN {
                self.bits > other.bits
            } else {
                self.bits > SINGLE_SIGN || other.bits > 0
            }
        } else {
            other.bits < SINGLE_SIGN && self.bits < other.bits
        }
    }

    /// Saturates the number into `[low, high]`. The result lies in the
    /// range for every number, a NaN included, which gives `low`.
    pub fn clamp(self, low: Single, high: Single) -> (clamped: Single)
        requires
            low.within(low, high),
        ensures
            clamped == self.clamp_to(low, high),
            clamped.within(low, high),
            self.within(low, high) ==> clamped == self,
    {
        if self.nan() || self.less_than(low) {
            low
        } else if high.less_than(self) {
            high
        } else {
            self
        }
    }
}

impl Double {
    /// The number with the given bit pattern.
    pub fn from_bits(bits: u64) -> (number: Double)
        ensures
            number.bits == bits,
    {
        Double { bits }
    }

    /// The bit pattern of the number.
    pub fn to_bits(self) -> (bits: u64)
        ensures
            bits == self.bits,
    {
        self.bits
    }
}

/// Saturation is idempotent: a saturated number saturates to itself.
pub proof fn lemma_clamp_idempotent(number: Single, low: Single, high: Single)
    requires
        low.within(low, high),
    ensures
        number.clamp_to(low, high).clamp_to(low, high) == number.clamp_to(low, high),
{
}

/// Saturation is total: it puts every number into the range, a NaN
/// included, and leaves a number of the range as it is.
pub proof fn lemma_clamp_within(number: Single, low: Single, high: Single)
    requires
        low.within(low, high),
    ensures
        number.clamp_to(low, high).within(low, high),
        number.within(low, high) ==> number.clamp_to(low, high) == number,
        number.is_nan() ==> number.clamp_to(low, high) == low,
{
}

} // verus!
