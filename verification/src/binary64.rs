//! IEEE 754 double-precision numbers, held by their 64-bit pattern.
//!
//! The solvers of this crate never compute with a double themselves: sums,
//! products and quotients come from the caller's floating-point unit. What
//! they do need is to compare doubles, and comparison is plain integer work
//! on the bit pattern, which is what this module provides.

use vstd::prelude::*;

verus! {

/// The highest bit of the pattern, set in negative numbers.
pub const SIGN_MASK: u64 = 0x8000_0000_0000_0000;

/// The pattern of positive infinity, the largest magnitude that is a number.
pub const INFINITY_BITS: u64 = 0x7FF0_0000_0000_0000;

/// The pattern of the positive quiet NaN.
pub const NAN_BITS: u64 = 0x7FF8_0000_0000_0000;

/// The pattern of 0.5.
pub const HALF_BITS: u64 = 0x3FE0_0000_0000_0000;

/// The pattern of 1.0.
pub const ONE_BITS: u64 = 0x3FF0_0000_0000_0000;

/// The pattern of `2^-52`, the gap between 1.0 and the next double.
pub const EPSILON_BITS: u64 = 0x3CB0_0000_0000_0000;

/// The pattern of `2^-50`, four times the gap between 1.0 and the next double.
pub const FOUR_EPSILON_BITS: u64 = 0x3CD0_0000_0000_0000;

/// A double-precision number: one sign bit, eleven exponent bits and
/// fifty-two fraction bits, from the highest bit down.
#[derive(Clone, Copy, Debug)]
pub struct Binary64 {
    pub bits: u64,
}

impl Binary64 {
    /// Whether the sign bit is set. True of `-0.0` and of half the NaNs too.
    pub open spec fn spec_sign(self) -> bool {
        self.bits >= SIGN_MASK
    }

    /// The pattern without its sign bit. Among numbers, a greater magnitude
    /// is a greater absolute value.
    pub open spec fn spec_magnitude(self) -> u64 {
        if self.spec_sign() {
            (self.bits - SIGN_MASK) as u64
        } else {
            self.bits
        }
    }

    /// Whether the pattern is not a number: its magnitude lies above infinity's.
    pub open spec fn spec_is_nan(self) -> bool {
        self.spec_magnitude() > INFINITY_BITS
    }

    /// Whether the pattern is `0.0` or `-0.0`.
    pub open spec fn spec_is_zero(self) -> bool {
        self.spec_magnitude() == 0
    }

    /// The place of a number on the line of doubles: its magnitude, negated
    /// under a sign bit. Both zeros stand at 0, each next double one further
    /// out, the infinities at the ends. Meaningless for a NaN.
    pub open spec fn ordinal(self) -> int {
        if self.spec_sign() {
            -(self.spec_magnitude() as int)
        } else {
            self.spec_magnitude() as int
        }
    }

    /// `self < other` as IEEE 754 has it: false if either is a NaN, and else
    /// the order of the line of doubles.
    pub open spec fn spec_lt(self, other: Binary64) -> bool {
        !self.spec_is_nan() && !other.spec_is_nan() && self.ordinal() < other.ordinal()
    }

    /// `self <= other` as IEEE 754 has it: false if either is a NaN.
    pub open spec fn spec_le(self, other: Binary64) -> bool {
        !self.spec_is_nan() && !other.spec_is_nan() && self.ordinal() <= other.ordinal()
    }

    /// `self < 0.0`: a number left of zero.
    pub open spec fn spec_is_negative(self) -> bool {
        !self.spec_is_nan() && self.ordinal() < 0
    }

    /// `self > 0.0`: a number right of zero.
    pub open spec fn spec_is_positive(self) -> bool {
        !self.spec_is_nan() && self.ordinal() > 0
    }

    /// The absolute value: the same pattern with the sign bit cleared.
    pub open spec fn spec_abs(self) -> Binary64 {
        Binary64 { bits: self.spec_magnitude() }
    }

    /// The positive quiet NaN.
    pub open spec fn spec_nan() -> Binary64 {
        Binary64 { bits: NAN_BITS }
    }

    /// The double with the given pattern.
    pub fn from_bits(bits: u64) -> (number: Binary64)
        ensures
            number == (Binary64 { bits }),
    {
        Binary64 { bits }
    }

    /// The pattern of the double.
    pub fn to_bits(self) -> (bits: u64)
        ensures
            bits == self.bits,
    {
        self.bits
    }

    /// The positive quiet NaN, which the solvers return for a failure.
    #[verifier::when_used_as_spec(spec_nan)]
    pub fn nan() -> (number: Binary64)
        ensures
            number == Binary64::spec_nan(),
            number.spec_is_nan(),
    {
        Binary64 { bits: NAN_BITS }
    }

    /// Whether the sign bit is set.
    #[verifier::when_used_as_spec(spec_sign)]
    pub fn sign(self) -> (set: bool)
        ensures
            set == self.spec_sign(),
    {
        self.bits >= SIGN_MASK
    }

    /// The pattern without its sign bit.
    #[verifier::when_used_as_spec(spec_magnitude)]
    pub fn magnitude(self) -> (magnitude: u64)
        ensures
            magnitude == self.spec_magnitude(),
    {
        if self.bits >= SIGN_MASK {
            self.bits - SIGN_MASK
        } else {
            self.bits
        }
    }

    /// Whether the double is not a number.
    #[verifier::when_used_as_spec(spec_is_nan)]
    pub fn is_nan(self) -> (nan: bool)
        ensures
            nan == self.spec_is_nan(),
    {
        self.magnitude() > INFINITY_BITS
    }

    /// `self == 0.0`, which holds of both zeros.
    #[verifier::when_used_as_spec(spec_is_zero)]
    pub fn is_zero(self) -> (zero: bool)
        ensures
            zero == self.spec_is_zero(),
    {
        self.magnitude() == 0
    }

    /// `self < other`.
    #[verifier::when_used_as_spec(spec_lt)]
    pub fn lt(self, other: Binary64) -> (less: bool)
        ensures
            less == self.spec_lt(other),
    {
        if self.is_nan() || other.is_nan() {
            false
        } else if self.sign() {
            if other.sign() {
                self.magnitude() > other.magnitude()
            } else {
                self.magnitude() != 0 || other.magnitude() != 0
            }
        } else {
            !other.sign() && self.magnitude() < other.magnitude()
        }
    }

    /// `self <= other`.
    #[verifier::when_used_as_spec(spec_le)]
    pub fn le(self, other: Binary64) -> (at_most: bool)
        ensures
            at_most == self.spec_le(other),
    {
        if self.is_nan() || other.is_nan() {
            false
        } else if self.sign() {
            !other.sign() || self.magnitude() >= other.magnitude()
        } else if other.sign() {
            self.magnitude() == 0 && other.magnitude() == 0
        } else {
            self.magnitude() <= other.magnitude()
        }
    }

    /// `self < 0.0`.
    #[verifier::when_used_as_spec(spec_is_negative)]
    pub fn is_negative(self) -> (negative: bool)
        ensures
            negative == self.spec_is_negative(),
            negative == self.spec_lt(Binary64 { bits: 0 }),
    {
        self.lt(Binary64 { bits: 0 })
    }

    /// `self > 0.0`.
    #[verifier::when_used_as_spec(spec_is_positive)]
    pub fn is_positive(self) -> (positive: bool)
        ensures
            positive == self.spec_is_positive(),
            positive == (Binary64 { bits: 0 }).spec_lt(self),
    {
        Binary64 { bits: 0 }.lt(self)
    }

    /// The absolute value.
    #[verifier::when_used_as_spec(spec_abs)]
    pub fn abs(self) -> (absolute: Binary64)
        ensures
            absolute == self.spec_abs(),
            !absolute.spec_sign(),
            absolute.spec_is_nan() == self.spec_is_nan(),
    {
        Binary64 { bits: self.magnitude() }
    }
}

} // verus!
