//! Binary32 numbers held by their encoding.
//!
//! A [`Scalar`] is the 32-bit IEEE 754 encoding of a number: one sign bit,
//! eight exponent bits, twenty-three fraction bits. Order and classification
//! are decided on the encoding alone.
use vstd::prelude::*;

verus! {

/// The sign bit of an encoding.
pub const SIGN_BIT: u32 = 0x8000_0000;

/// The encoding of positive infinity: every exponent bit set, no fraction bit.
pub const INFINITY_BITS: u32 = 0x7f80_0000;

/// The encoding of positive zero.
pub const ZERO_BITS: u32 = 0x0000_0000;

/// The encoding of one.
pub const ONE_BITS: u32 = 0x3f80_0000;

/// A binary32 number, held by its encoding.
///
/// `==` compares encodings: the two zeros differ, and a NaN equals itself.
/// The numeric order is [`Scalar::spec_lt`] and [`Scalar::spec_le`].
#[derive(Clone, Copy, Debug, PartialEq, Eq, Structural)]
pub struct Scalar {
    pub bits: u32,
}

impl Scalar {
    /// Whether the sign bit is set.
    pub open spec fn sign(self) -> bool {
        self.bits >= SIGN_BIT
    }

    /// The encoding without its sign bit.
    pub open spec fn magnitude(self) -> int {
        if self.bits >= SIGN_BIT {
            self.bits - SIGN_BIT
        } else {
            self.bits as int
        }
    }

    /// Whether the encoding is a NaN: all exponent bits set and some fraction bit.
    pub open spec fn spec_is_nan(self) -> bool {
        self.magnitude() > INFINITY_BITS
    }

    /// Whether the encoding is a number other than an infinity or a NaN.
    pub open spec fn spec_is_finite(self) -> bool {
        self.magnitude() < INFINITY_BITS
    }

    /// The place of a number in the numeric order: of two encodings that are
    /// not NaN, the smaller number has the smaller key, and equal numbers
    /// (the two zeros among them) have the same key.
    pub open spec fn key(self) -> int {
        if self.sign() {
            -self.magnitude()
        } else {
            self.magnitude()
        }
    }

    /// `self < other` as numbers. False when either is a NaN.
    pub open spec fn spec_lt(self, other: Scalar) -> bool {
        !self.spec_is_nan() && !other.spec_is_nan() && self.key() < other.key()
    }

    /// `self <= other` as numbers. False when either is a NaN.
    pub open spec fn spec_le(self, other: Scalar) -> bool {
        !self.spec_is_nan() && !other.spec_is_nan() && self.key() <= other.key()
    }

    /// `self` limited to the interval from `min` to `max`: `min` where `self`
    /// is less, `max` where it is greater, else `self` itself, a NaN included.
    pub open spec fn spec_clamp(self, min: Scalar, max: Scalar) -> Scalar {
        if self.spec_lt(min) {
            min
        } else if max.spec_lt(self) {
            max
        } else {
            self
        }
    }

    /// Whether the number is zero or more. False of a NaN.
    pub open spec fn spec_is_non_negative(self) -> bool {
        (Scalar { bits: ZERO_BITS }).spec_le(self)
    }

    /// Whether the number lies between zero and one, both included.
    pub open spec fn spec_is_unit(self) -> bool {
        (Scalar { bits: ZERO_BITS }).spec_le(self) && self.spec_le(Scalar { bits: ONE_BITS })
    }

    /// Whether the number is more than zero. False of a NaN.
    pub open spec fn spec_is_positive(self) -> bool {
        (Scalar { bits: ZERO_BITS }).spec_lt(self)
    }

    /// The number with the given encoding.
    pub fn from_bits(bits: u32) -> (r: Scalar)
        ensures
            r.bits == bits,
    {
        Scalar { bits }
    }

    /// The encoding of the number.
    pub fn to_bits(self) -> (r: u32)
        ensures
            r == self.bits,
    {
        self.bits
    }

    /// Positive zero.
    pub fn zero() -> (r: Scalar)
        ensures
            r.bits == ZERO_BITS,
    {
        Scalar { bits: ZERO_BITS }
    }

    /// One.
    pub fn one() -> (r: Scalar)
        ensures
            r.bits == ONE_BITS,
    {
        Scalar { bits: ONE_BITS }
    }

    /// Whether the sign bit is set; true of negative zero too.
    pub fn is_sign_negative(self) -> (r: bool)
        ensures
            r == self.sign(),
    {
        self.bits >= SIGN_BIT
    }

    fn magnitude_bits(self) -> (r: u32)
        ensures
            r == self.magnitude(),
            r < SIGN_BIT,
    {
        if self.bits >= SIGN_BIT {
            self.bits - SIGN_BIT
        } else {
            self.bits
        }
    }

    /// Whether the number is a NaN.
    #[verifier::when_used_as_spec(spec_is_nan)]
    pub fn is_nan(self) -> (r: bool)
        ensures
            r == self.spec_is_nan(),
    {
        self.magnitude_bits() > INFINITY_BITS
    }

    /// Whether the number is neither an infinity nor a NaN.
    #[verifier::when_used_as_spec(spec_is_finite)]
    pub fn is_finite(self) -> (r: bool)
        ensures
            r == self.spec_is_finite(),
    {
        self.magnitude_bits() < INFINITY_BITS
    }

    /// `self < other` as numbers.
    #[verifier::when_used_as_spec(spec_lt)]
    pub fn lt(self, other: Scalar) -> (r: bool)
        ensures
            r == self.spec_lt(other),
    {
        let a: u32 = self.magnitude_bits();
        let b: u32 = other.magnitude_bits();
        if a > INFINITY_BITS || b > INFINITY_BITS {
            false
        } else if self.is_sign_negative() {
            if other.is_sign_negative() {
                b < a
            } else {
                a != 0 || b != 0
            }
        } else {
            !other.is_sign_negative() && a < b
        }
    }

    /// `self <= other` as numbers.
    #[verifier::when_used_as_spec(spec_le)]
    pub fn le(self, other: Scalar) -> (r: bool)
        ensures
            r == self.spec_le(other),
    {
        let a: u32 = self.magnitude_bits();
        let b: u32 = other.magnitude_bits();
        if a > INFINITY_BITS || b > INFINITY_BITS {
            false
        } else if self.is_sign_negative() {
            if other.is_sign_negative() {
                b <= a
            } else {
                true
            }
        } else if other.is_sign_negative() {
            a == 0 && b == 0
        } else {
            a <= b
        }
    }

    /// Whether the number is zero or more.
    #[verifier::when_used_as_spec(spec_is_non_negative)]
    pub fn is_non_negative(self) -> (r: bool)
        ensures
            r == self.spec_is_non_negative(),
    {
        Scalar::zero().le(self)
    }

    /// Whether the number lies between zero and one, both included.
    #[verifier::when_used_as_spec(spec_is_unit)]
    pub fn is_unit(self) -> (r: bool)
        ensures
            r == self.spec_is_unit(),
    {
        Scalar::zero().le(self) && self.le(Scalar::one())
    }

    /// Whether the number is more than zero.
    #[verifier::when_used_as_spec(spec_is_positive)]
    pub fn is_positive(self) -> (r: bool)
        ensures
            r == self.spec_is_positive(),
    {
        Scalar::zero().lt(self)
    }

    /// `self` limited to the interval from `min` to `max`.
    ///
    /// The bounds must be ordered, which rules out a NaN for either.
    #[verifier::when_used_as_spec(spec_clamp)]
    pub fn clamp(self, min: Scalar, max: Scalar) -> (r: Scalar)
        requires
            min.spec_le(max),
        ensures
            r == self.spec_clamp(min, max),
    {
        if self.lt(min) {
            min
        } else if max.lt(self) {
            max
        } else {
            self
        }
    }
}

/// A clamped number lies between the bounds, unless it was a NaN.
pub proof fn lemma_clamp_within(x: Scalar, min: Scalar, max: Scalar)
    requires
        min.spec_le(max),
        !x.spec_is_nan(),
    ensures
        min.spec_le(x.spec_clamp(min, max)),
        x.spec_clamp(min, max).spec_le(max),
{
}

/// A number that lies between the bounds is left as it is.
pub proof fn lemma_clamp_keeps_inside(x: Scalar, min: Scalar, max: Scalar)
    requires
        min.spec_le(x),
        x.spec_le(max),
    ensures
        x.spec_clamp(min, max) == x,
{
}

/// Clamping once is enough: a clamped number clamps to itself.
pub proof fn lemma_clamp_idempotent(x: Scalar, min: Scalar, max: Scalar)
    requires
        min.spec_le(max),
    ensures
        x.spec_clamp(min, max).spec_clamp(min, max) == x.spec_clamp(min, max),
{
}

} // verus!
