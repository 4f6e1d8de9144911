//! Binary64 values as bit patterns, with the IEEE-754 order decided on the bits.

use vstd::prelude::*;

verus! {

/// The bit that carries the sign of a binary64 value.
pub const SIGN_BIT: u64 = 0x8000_0000_0000_0000;

/// The bit pattern of positive infinity; every larger magnitude is a NaN.
pub const INFINITY_BITS: u64 = 0x7ff0_0000_0000_0000;

/// An IEEE-754 binary64 value, held as its bit pattern.
///
/// The crate never computes with such a value. It only classifies it and
/// compares it with another, both of which the bit pattern decides alone.
#[derive(Clone, Copy, PartialEq, Eq, Structural, Debug)]
pub struct Scalar {
    pub bits: u64,
}

impl Scalar {
    /// The bit pattern with the sign bit cleared.
    pub open spec fn magnitude_bits(self) -> u64 {
        if self.bits >= SIGN_BIT {
            (self.bits - SIGN_BIT) as u64
        } else {
            self.bits
        }
    }

    /// Whether the sign bit is set.
    pub open spec fn sign_set(self) -> bool {
        self.bits >= SIGN_BIT
    }

    /// Whether the value is a NaN: exponent all ones and a nonzero fraction.
    pub open spec fn nan(self) -> bool {
        self.magnitude_bits() > INFINITY_BITS
    }

    /// An integer that orders the non-NaN values as IEEE-754 does: the
    /// magnitude bits, negated where the sign bit is set. Both zeros map to 0.
    pub open spec fn key(self) -> int {
        if self.sign_set() {
            -(self.magnitude_bits() as int)
        } else {
            self.magnitude_bits() as int
        }
    }

    /// `self < other` as IEEE-754 defines it: false where either is a NaN.
    pub open spec fn below(self, other: Scalar) -> bool {
        !self.nan() && !other.nan() && self.key() < other.key()
    }

    /// `self <= other` as IEEE-754 defines it: false where either is a NaN.
    pub open spec fn at_most(self, other: Scalar) -> bool {
        !self.nan() && !other.nan() && self.key() <= other.key()
    }

    /// Positive or negative zero.
    pub open spec fn zero(self) -> bool {
        self.magnitude_bits() == 0
    }

    /// Strictly less than zero.
    pub open spec fn negative(self) -> bool {
        !self.nan() && self.key() < 0
    }

    /// Strictly greater than zero.
    pub open spec fn positive(self) -> bool {
        !self.nan() && self.key() > 0
    }

    /// The absolute value: the same bits with the sign cleared.
    pub open spec fn magnitude(self) -> Scalar {
        Scalar { bits: self.magnitude_bits() }
    }

    /// Strictly negative against strictly positive, in either order.
    pub open spec fn opposes(self, other: Scalar) -> bool {
        (self.negative() && other.positive()) || (self.positive() && other.negative())
    }

    pub fn from_bits(bits: u64) -> (r: Scalar)
        ensures
            r.bits == bits,
    {
        Scalar { bits }
    }

    pub fn to_bits(self) -> (bits: u64)
        ensures
            bits == self.bits,
    {
        self.bits
    }

    /// Positive zero.
    pub fn zero_value() -> (r: Scalar)
        ensures
            r.bits == 0,
            r.zero(),
            !r.sign_set(),
    {
        Scalar { bits: 0 }
    }

    pub fn abs(self) -> (r: Scalar)
        ensures
            r == self.magnitude(),
            !r.sign_set(),
            r.nan() == self.nan(),
    {
        if self.bits >= SIGN_BIT {
            Scalar { bits: self.bits - SIGN_BIT }
        } else {
            self
        }
    }

    pub fn is_nan(self) -> (r: bool)
        ensures
            r == self.nan(),
    {
        self.abs().bits > INFINITY_BITS
    }

    pub fn is_zero(self) -> (r: bool)
        ensures
            r == self.zero(),
    {
        self.abs().bits == 0
    }

    pub fn is_negative(self) -> (r: bool)
        ensures
            r == self.negative(),
            r == self.below(Scalar { bits: 0 }),
    {
        let m: u64 = self.abs().bits;
        self.bits >= SIGN_BIT && 0 < m && m <= INFINITY_BITS
    }

    pub fn is_positive(self) -> (r: bool)
        ensures
            r == self.positive(),
            r == (Scalar { bits: 0 }).below(self),
    {
        0 < self.bits && self.bits <= INFINITY_BITS
    }

    /// The comparison `self < other` of binary64 values.
    pub fn lt(self, other: Scalar) -> (r: bool)
        ensures
            r == self.below(other),
    {
        if self.is_nan() || other.is_nan() {
            return false;
        }
        let a: u64 = self.abs().bits;
        let b: u64 = other.abs().bits;
        if self.bits >= SIGN_BIT {
            if other.bits >= SIGN_BIT {
                b < a
            } else {
                a > 0 || b > 0
            }
        } else {
            if other.bits >= SIGN_BIT {
                false
            } else {
                a < b
            }
        }
    }

    /// The comparison `self <= other` of binary64 values.
    pub fn le(self, other: Scalar) -> (r: bool)
        ensures
            r == self.at_most(other),
    {
        if self.is_nan() || other.is_nan() {
            return false;
        }
        !other.lt(self)
    }

    /// The comparison `self >= other` of binary64 values.
    pub fn ge(self, other: Scalar) -> (r: bool)
        ensures
            r == other.at_most(self),
    {
        other.le(self)
    }

    /// The comparison `self > other` of binary64 values.
    pub fn gt(self, other: Scalar) -> (r: bool)
        ensures
            r == other.below(self),
    {
        other.lt(self)
    }

    /// Whether the two values lie strictly on opposite sides of zero.
    pub fn opposite_sign(self, other: Scalar) -> (r: bool)
        ensures
            r == self.opposes(other),
    {
        (self.is_negative() && other.is_positive()) || (self.is_positive()
            && other.is_negative())
    }
}

/// The order is strict: no value is below itself, and of two values at most
/// one is below the other.
pub proof fn order_is_strict(a: Scalar, b: Scalar)
    ensures
        !a.below(a),
        a.below(b) ==> !b.below(a),
        a.below(b) ==> a.at_most(b),
{
}

/// The order is transitive.
pub proof fn order_is_transitive(a: Scalar, b: Scalar, c: Scalar)
    requires
        a.below(b),
        b.below(c),
    ensures
        a.below(c),
{
}

/// Of two values that are not NaN, one is below the other or the two are
/// equal as numbers: the same bits, or the two zeros.
pub proof fn order_is_total(a: Scalar, b: Scalar)
    requires
        !a.nan(),
        !b.nan(),
    ensures
        a.below(b) || b.below(a) || a.bits == b.bits || (a.zero() && b.zero()),
        a.at_most(b) == !b.below(a),
{
}

/// A NaN is neither below nor above anything, and lies on neither side of zero.
pub proof fn nan_is_unordered(a: Scalar, b: Scalar)
    requires
        a.nan(),
    ensures
        !a.below(b),
        !b.below(a),
        !a.at_most(b),
        !b.at_most(a),
        !a.negative(),
        !a.positive(),
        !a.zero(),
{
}

/// Every value that is not a NaN is strictly negative, a zero, or strictly
/// positive, and only one of the three; its magnitude is never negative.
pub proof fn sign_is_exclusive(a: Scalar)
    requires
        !a.nan(),
    ensures
        a.negative() || a.zero() || a.positive(),
        !(a.negative() && a.zero()),
        !(a.negative() && a.positive()),
        !(a.zero() && a.positive()),
        !a.magnitude().negative(),
        a.magnitude().zero() == a.zero(),
{
}

} // verus!
