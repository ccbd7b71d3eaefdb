use vstd::prelude::*;
use vstd::std_specs::cmp::PartialEqSpecImpl;

verus! {

/// The sign bit of a binary32 pattern.
pub const SIGN_BIT: u32 = 0x8000_0000;

/// The pattern of positive infinity: every exponent bit set, no fraction bit.
pub const INFINITY_BITS: u32 = 0x7f80_0000;

/// A single-precision number, held as its IEEE 754 binary32 bit pattern:
/// one sign bit, eight exponent bits, twenty-three fraction bits.
///
/// Every pattern is a valid scalar. Arithmetic on scalars is not part of
/// this type: it is done by an arithmetic unit that the caller supplies.
#[derive(Clone, Copy, Debug)]
pub struct Scalar {
    pub bits: u32,
}

impl Scalar {
    /// The pattern with its sign bit cleared.
    pub open spec fn unsigned_bits(self) -> int {
        if self.bits >= SIGN_BIT {
            self.bits - SIGN_BIT
        } else {
            self.bits as int
        }
    }

    /// The sign bit is set (this holds of `-0.0` and of some NaNs too).
    pub open spec fn spec_is_sign_negative(self) -> bool {
        self.bits >= SIGN_BIT
    }

    /// Not a number: every exponent bit set and some fraction bit set.
    pub open spec fn spec_is_nan(self) -> bool {
        self.unsigned_bits() > INFINITY_BITS
    }

    /// Positive or negative infinity.
    pub open spec fn spec_is_infinite(self) -> bool {
        self.unsigned_bits() == INFINITY_BITS
    }

    /// Zero, subnormal or normal: neither infinite nor NaN.
    pub open spec fn spec_is_finite(self) -> bool {
        self.unsigned_bits() < INFINITY_BITS
    }

    /// Positive or negative zero.
    pub open spec fn spec_is_zero(self) -> bool {
        self.unsigned_bits() == 0
    }

    /// IEEE 754 equality of the numbers that two patterns encode: a NaN
    /// equals nothing, not even itself; the two zeros are equal; any other
    /// two numbers are equal exactly when their patterns are.
    pub open spec fn same_number(self, other: Scalar) -> bool {
        &&& !self.spec_is_nan()
        &&& !other.spec_is_nan()
        &&& (self.bits == other.bits || (self.spec_is_zero() && other.spec_is_zero()))
    }

    /// The same pattern, or a NaN each: as much as two computations of one
    /// number are sure to agree in, the pattern of a NaN being left open.
    pub open spec fn agrees_with(self, other: Scalar) -> bool {
        self == other || (self.spec_is_nan() && other.spec_is_nan())
    }

    /// Positive zero, the all-clear pattern.
    pub open spec fn spec_zero() -> Scalar {
        Scalar { bits: 0 }
    }

    #[verifier::when_used_as_spec(spec_zero)]
    pub fn zero() -> (r: Scalar)
        ensures
            r == Scalar::spec_zero(),
    {
        Scalar { bits: 0 }
    }

    pub fn from_bits(bits: u32) -> (r: Scalar)
        ensures
            r.bits == bits,
    {
        Scalar { bits }
    }

    pub fn to_bits(self) -> (r: u32)
        ensures
            r == self.bits,
    {
        self.bits
    }

    fn without_sign(self) -> (r: u32)
        ensures
            r == self.unsigned_bits(),
    {
        if self.bits >= SIGN_BIT {
            self.bits - SIGN_BIT
        } else {
            self.bits
        }
    }

    #[verifier::when_used_as_spec(spec_is_sign_negative)]
    pub fn is_sign_negative(self) -> (r: bool)
        ensures
            r == self.spec_is_sign_negative(),
    {
        self.bits >= SIGN_BIT
    }

    #[verifier::when_used_as_spec(spec_is_nan)]
    pub fn is_nan(self) -> (r: bool)
        ensures
            r == self.spec_is_nan(),
    {
        self.without_sign() > INFINITY_BITS
    }

    #[verifier::when_used_as_spec(spec_is_infinite)]
    pub fn is_infinite(self) -> (r: bool)
        ensures
            r == self.spec_is_infinite(),
    {
        self.without_sign() == INFINITY_BITS
    }

    #[verifier::when_used_as_spec(spec_is_finite)]
    pub fn is_finite(self) -> (r: bool)
        ensures
            r == self.spec_is_finite(),
    {
        self.without_sign() < INFINITY_BITS
    }

    #[verifier::when_used_as_spec(spec_is_zero)]
    pub fn is_zero(self) -> (r: bool)
        ensures
            r == self.spec_is_zero(),
    {
        self.without_sign() == 0
    }
}

impl PartialEq for Scalar {
    fn eq(&self, other: &Scalar) -> (r: bool) {
        !self.is_nan() && !other.is_nan() && (self.bits == other.bits || (self.is_zero()
            && other.is_zero()))
    }
}

impl PartialEqSpecImpl for Scalar {
    open spec fn obeys_eq_spec() -> bool {
        true
    }

    open spec fn eq_spec(&self, other: &Scalar) -> bool {
        self.same_number(*other)
    }
}

} // verus!
