//! Double-precision numbers as bit patterns.
//!
//! The synapse works on IEEE 754 binary64 numbers, and everything it has to decide about
//! one of them (is it finite, is it below a threshold, where does it lie against a limit)
//! can be read off the 64 bits of its encoding with integer operations alone. This module
//! holds such a number as those bits and gives the readings their meaning.
use vstd::prelude::*;

verus! {

/// Bit 63 of an encoding: the sign.
pub const SIGN_BIT: u64 = 0x8000_0000_0000_0000;

/// The low 63 bits of an encoding: biased exponent and fraction.
pub const MAGNITUDE_MASK: u64 = 0x7fff_ffff_ffff_ffff;

/// The magnitude bits of an infinity. Smaller magnitudes are finite numbers, larger ones
/// are NaNs.
pub const INFINITY_MAGNITUDE: u64 = 0x7ff0_0000_0000_0000;

/// The encoding of `+0.0`.
pub const ZERO_BITS: u64 = 0;

/// The encoding of `1.0`.
pub const ONE_BITS: u64 = 0x3ff0_0000_0000_0000;

/// The encoding of `1000.0`.
pub const THOUSAND_BITS: u64 = 0x408f_4000_0000_0000;

/// A binary64 number, held as the 64 bits of its encoding.
///
/// Two values are equal in contracts when their bits are equal, which is finer than
/// numeric equality: `+0.0` and `-0.0` differ, and a NaN equals itself.
#[derive(Clone, Copy, Debug)]
pub struct Binary64 {
    pub bits: u64,
}

impl Binary64 {
    /// The encoding without its sign bit.
    pub open spec fn magnitude(self) -> u64 {
        if self.bits >= SIGN_BIT {
            (self.bits - SIGN_BIT) as u64
        } else {
            self.bits
        }
    }

    /// An integer that orders the numbers: for `a` and `b` that are not NaN, `a` is
    /// numerically below `b` exactly when `a.rank() < b.rank()`. Both zeros have rank 0.
    /// The module `value` proves this of the finite numbers against their values; the
    /// infinities lie beyond them on either side.
    pub open spec fn rank(self) -> int {
        if self.bits >= SIGN_BIT {
            -(self.magnitude() as int)
        } else {
            self.magnitude() as int
        }
    }

    /// What `self.clamp(low, high)` returns.
    pub open spec fn clamped(self, low: Binary64, high: Binary64) -> Binary64 {
        if self.lt(low) {
            low
        } else if self.gt(high) {
            high
        } else {
            self
        }
    }

    /// The number with the given encoding.
    #[verifier::allow_in_spec]
    pub fn from_bits(bits: u64) -> Binary64
        returns
            (Binary64 { bits }),
    {
        Binary64 { bits }
    }

    /// The encoding of the number.
    #[verifier::allow_in_spec]
    pub fn to_bits(self) -> u64
        returns
            self.bits,
    {
        self.bits
    }

    /// `+0.0`.
    #[verifier::allow_in_spec]
    pub fn zero() -> Binary64
        returns
            (Binary64 { bits: ZERO_BITS }),
    {
        Binary64 { bits: ZERO_BITS }
    }

    /// `1.0`.
    #[verifier::allow_in_spec]
    pub fn one() -> Binary64
        returns
            (Binary64 { bits: ONE_BITS }),
    {
        Binary64 { bits: ONE_BITS }
    }

    /// `1000.0`.
    #[verifier::allow_in_spec]
    pub fn thousand() -> Binary64
        returns
            (Binary64 { bits: THOUSAND_BITS }),
    {
        Binary64 { bits: THOUSAND_BITS }
    }

    /// Whether the sign bit is set. True of `-0.0` and of NaNs with the bit set, too.
    #[verifier::allow_in_spec]
    pub fn is_sign_negative(self) -> bool
        returns
            self.bits >= SIGN_BIT,
    {
        self.bits >= SIGN_BIT
    }

    /// The absolute value: the same encoding with the sign bit cleared.
    #[verifier::allow_in_spec]
    pub fn abs(self) -> Binary64
        returns
            (Binary64 { bits: self.magnitude() }),
    {
        let bits = self.bits;
        assert(bits & MAGNITUDE_MASK == if bits >= SIGN_BIT {
            (bits - SIGN_BIT) as u64
        } else {
            bits
        }) by (bit_vector);
        Binary64 { bits: bits & MAGNITUDE_MASK }
    }

    /// Whether the number is neither an infinity nor a NaN.
    #[verifier::allow_in_spec]
    pub fn is_finite(self) -> bool
        returns
            self.magnitude() < INFINITY_MAGNITUDE,
    {
        self.abs().bits < INFINITY_MAGNITUDE
    }

    /// Whether the value is a NaN.
    #[verifier::allow_in_spec]
    pub fn is_nan(self) -> bool
        returns
            self.magnitude() > INFINITY_MAGNITUDE,
    {
        self.abs().bits > INFINITY_MAGNITUDE
    }

    /// Numeric `<`: false when either side is a NaN, and `-0.0` is not below `+0.0`.
    #[verifier::allow_in_spec]
    pub fn lt(self, other: Binary64) -> bool
        returns
            !self.is_nan() && !other.is_nan() && self.rank() < other.rank(),
    {
        if self.is_nan() || other.is_nan() {
            return false;
        }
        let a: u64 = self.abs().bits;
        let b: u64 = other.abs().bits;
        if self.is_sign_negative() {
            if other.is_sign_negative() {
                b < a
            } else {
                a != 0 || b != 0
            }
        } else {
            !other.is_sign_negative() && a < b
        }
    }

    /// Numeric `>`: `other < self`.
    #[verifier::allow_in_spec]
    pub fn gt(self, other: Binary64) -> bool
        returns
            other.lt(self),
    {
        other.lt(self)
    }

    /// The number itself where it is finite, `+0.0` in place of an infinity or a NaN.
    #[verifier::allow_in_spec]
    pub fn finite_or_zero(self) -> Binary64
        returns
            (if self.is_finite() {
                self
            } else {
                Binary64::zero()
            }),
    {
        if self.is_finite() {
            self
        } else {
            Binary64::zero()
        }
    }

    /// Restricts the number to the interval from `low` to `high`: `low` where it is below
    /// `low`, `high` where it is above `high`, and otherwise the number itself, bit for
    /// bit. A NaN is neither below nor above anything and stays as it is.
    pub fn clamp(self, low: Binary64, high: Binary64) -> (r: Binary64)
        requires
            !low.is_nan(),
            !high.is_nan(),
            low.rank() <= high.rank(),
        ensures
            r == self.clamped(low, high),
            self.is_nan() ==> r == self,
            !self.is_nan() ==> !r.is_nan() && low.rank() <= r.rank() <= high.rank(),
    {
        if self.lt(low) {
            low
        } else if self.gt(high) {
            high
        } else {
            self
        }
    }
}

} // verus!
