//! Binary32 numbers, held by their encoding.
//!
//! A [`Scalar`] is the 32-bit pattern of an IEEE 754 single-precision number:
//! one sign bit, eight exponent bits, twenty-three fraction bits. Nothing here
//! rounds: comparing, clamping and choosing the lesser of two numbers only
//! read the encoding, and are specified over [`Scalar::rank`], an integer that
//! orders the encodings as the numbers they stand for are ordered.

use vstd::prelude::*;

verus! {

/// The sign bit of an encoding.
pub const SIGN_BIT: u32 = 0x8000_0000;

/// The encoding of positive infinity; a larger magnitude is a NaN.
pub const INFINITY_BITS: u32 = 0x7f80_0000;

/// The encoding of the number one.
pub const ONE_BITS: u32 = 0x3f80_0000;

/// A binary32 number, by its encoding.
///
/// Two scalars are `==` when their encodings are the same bit for bit. That is
/// finer than the order of the numbers: the two zeros differ, and a NaN equals
/// itself.
#[derive(Clone, Copy, Debug, PartialEq, Eq, Structural)]
pub struct Scalar {
    pub bits: u32,
}

impl Scalar {
    /// The encoding without its sign bit.
    pub open spec fn magnitude(self) -> nat {
        if self.bits >= SIGN_BIT {
            (self.bits - SIGN_BIT) as nat
        } else {
            self.bits as nat
        }
    }

    /// Whether the sign bit is set. This holds of negative zero too.
    pub open spec fn sign_negative(self) -> bool {
        self.bits >= SIGN_BIT
    }

    /// Whether the encoding is a NaN: all exponent bits set and a fraction
    /// that is not zero.
    pub open spec fn spec_is_nan(self) -> bool {
        self.magnitude() > INFINITY_BITS
    }

    /// Whether the number is zero, of either sign.
    pub open spec fn spec_is_zero(self) -> bool {
        self.magnitude() == 0
    }

    /// The place of the number in the order of all numbers that are no NaN.
    ///
    /// Among encodings of one sign a larger magnitude is a number further from
    /// zero, so the magnitude, negated under a set sign bit, grows exactly as
    /// the number does. Both zeros have rank 0, the infinities have the ranks
    /// `INFINITY_BITS` and `-INFINITY_BITS`.
    pub open spec fn rank(self) -> int {
        if self.sign_negative() {
            -(self.magnitude() as int)
        } else {
            self.magnitude() as int
        }
    }

    /// `self < other` as numbers: false when either is a NaN.
    pub open spec fn spec_lt(self, other: Scalar) -> bool {
        !self.spec_is_nan() && !other.spec_is_nan() && self.rank() < other.rank()
    }

    /// `self <= other` as numbers: false when either is a NaN.
    pub open spec fn spec_le(self, other: Scalar) -> bool {
        !self.spec_is_nan() && !other.spec_is_nan() && self.rank() <= other.rank()
    }

    /// Whether the number lies between zero and one, both included.
    pub open spec fn in_unit(self) -> bool {
        !self.spec_is_nan() && 0 <= self.rank() <= ONE_BITS
    }

    /// Whether clamping leaves the scalar as it is: it lies between zero and
    /// one, or it is a NaN.
    pub open spec fn settled(self) -> bool {
        self.spec_is_nan() || self.in_unit()
    }

    /// The number clamped into the interval from zero to one.
    ///
    /// A number below zero becomes positive zero, one above one becomes one,
    /// and everything else is kept bit for bit: a number inside the interval,
    /// negative zero, and a NaN.
    pub open spec fn spec_clamp_unit(self) -> Scalar {
        if self.spec_is_nan() {
            self
        } else if self.rank() < 0 {
            Scalar { bits: 0 }
        } else if self.rank() > ONE_BITS {
            Scalar { bits: ONE_BITS }
        } else {
            self
        }
    }

    /// The lesser of two numbers, ignoring a NaN.
    ///
    /// When one of the two is a NaN the result is the other one. When they
    /// compare equal (the two zeros, or the same number) the result is `self`.
    pub open spec fn spec_min(self, other: Scalar) -> Scalar {
        if self.spec_is_nan() {
            other
        } else if other.spec_is_nan() {
            self
        } else if other.rank() < self.rank() {
            other
        } else {
            self
        }
    }

    /// Clamping gives a settled scalar: a number between zero and one, unless
    /// a NaN went in. A settled scalar is what clamping keeps, so clamping
    /// twice is clamping once.
    pub proof fn lemma_clamp_unit_settled(self)
        ensures
            self.spec_clamp_unit().settled(),
            !self.spec_is_nan() ==> self.spec_clamp_unit().in_unit(),
            self.settled() <==> self.spec_clamp_unit() == self,
            self.spec_clamp_unit().spec_clamp_unit() == self.spec_clamp_unit(),
    {
    }

    /// The scalar with the given encoding.
    pub fn from_bits(bits: u32) -> (s: Scalar)
        ensures
            s.bits == bits,
    {
        Scalar { bits }
    }

    /// The encoding of the scalar.
    pub fn to_bits(self) -> (bits: u32)
        ensures
            bits == self.bits,
    {
        self.bits
    }

    /// Positive zero.
    pub fn zero() -> (s: Scalar)
        ensures
            s.bits == 0,
    {
        Scalar { bits: 0 }
    }

    /// The number one.
    pub fn one() -> (s: Scalar)
        ensures
            s.bits == ONE_BITS,
    {
        Scalar { bits: ONE_BITS }
    }

    fn abs_bits(self) -> (m: u32)
        ensures
            m == self.magnitude(),
    {
        if self.bits >= SIGN_BIT {
            self.bits - SIGN_BIT
        } else {
            self.bits
        }
    }

    /// Whether the scalar is a NaN.
    #[verifier::when_used_as_spec(spec_is_nan)]
    pub fn is_nan(self) -> (b: bool)
        ensures
            b == self.spec_is_nan(),
    {
        self.abs_bits() > INFINITY_BITS
    }

    /// Whether the scalar is zero, of either sign.
    #[verifier::when_used_as_spec(spec_is_zero)]
    pub fn is_zero(self) -> (b: bool)
        ensures
            b == self.spec_is_zero(),
    {
        self.abs_bits() == 0
    }

    /// Whether `self` is less than `other` as numbers.
    #[verifier::when_used_as_spec(spec_lt)]
    pub fn lt(self, other: Scalar) -> (b: bool)
        ensures
            b == self.spec_lt(other),
    {
        if self.is_nan() || other.is_nan() {
            return false;
        }
        let a: u32 = self.abs_bits();
        let b: u32 = other.abs_bits();
        if self.bits >= SIGN_BIT {
            if other.bits >= SIGN_BIT {
                b < a
            } else {
                a != 0 || b != 0
            }
        } else {
            other.bits < SIGN_BIT && a < b
        }
    }

    /// Whether `self` is less than or equal to `other` as numbers.
    #[verifier::when_used_as_spec(spec_le)]
    pub fn le(self, other: Scalar) -> (b: bool)
        ensures
            b == self.spec_le(other),
    {
        if self.is_nan() || other.is_nan() {
            return false;
        }
        !other.lt(self)
    }

    /// Clamps the scalar into the interval from zero to one.
    #[verifier::when_used_as_spec(spec_clamp_unit)]
    pub fn clamp_unit(self) -> (r: Scalar)
        ensures
            r == self.spec_clamp_unit(),
    {
        if self.is_nan() {
            self
        } else if self.lt(Scalar::zero()) {
            Scalar::zero()
        } else if Scalar::one().lt(self) {
            Scalar::one()
        } else {
            self
        }
    }

    /// The lesser of `self` and `other`, ignoring a NaN.
    #[verifier::when_used_as_spec(spec_min)]
    pub fn min(self, other: Scalar) -> (r: Scalar)
        ensures
            r == self.spec_min(other),
    {
        if self.is_nan() {
            other
        } else if other.is_nan() {
            self
        } else if other.lt(self) {
            other
        } else {
            self
        }
    }
}

} // verus!
