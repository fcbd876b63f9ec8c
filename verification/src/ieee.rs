//! IEEE 754 binary numbers, held by their bit patterns.
//!
//! Sample values, thresholds and scores are binary64 or binary32 numbers.
//! The library never computes with them; it carries them and, for binary64,
//! orders them. The order is defined on the bit pattern, by the sign bit and
//! the magnitude formed by the exponent and fraction fields, and proved to
//! be the order of the numbers that the patterns denote.

use vstd::prelude::*;
use vstd::arithmetic::power2::{lemma_pow2_pos, lemma_pow2_strictly_increases, lemma_pow2_unfold, pow2};

verus! {

/// Pattern with only the sign bit of a binary64 number set.
pub const SIGN_BIT: u64 = 0x8000_0000_0000_0000;

/// Magnitude of the binary64 infinities: exponent field all ones, fraction zero.
pub const INFINITY_MAGNITUDE: u64 = 0x7FF0_0000_0000_0000;

/// Two to the power 52: the number of patterns of the fraction field.
pub const FRACTION_RANGE: u64 = 0x10_0000_0000_0000;

/// A binary64 number.
///
/// `==` on this type compares bit patterns. It therefore tells the two zeros
/// apart and finds a NaN equal to itself; use [`Double::gt`] and
/// [`Double::le`] for the numeric order.
#[derive(Clone, Copy, Debug, PartialEq, Eq, Hash, Structural)]
pub struct Double {
    pub bits: u64,
}

impl Double {
    /// Whether the sign bit is set. True of negative zero and of some NaNs too.
    pub open spec fn is_sign_negative(self) -> bool {
        self.bits >= SIGN_BIT
    }

    /// The pattern with the sign bit cleared.
    pub open spec fn magnitude(self) -> nat {
        if self.bits >= SIGN_BIT {
            (self.bits - SIGN_BIT) as nat
        } else {
            self.bits as nat
        }
    }

    /// Whether the pattern is a NaN: above the magnitude of infinity.
    pub open spec fn is_nan(self) -> bool {
        self.magnitude() > INFINITY_MAGNITUDE
    }

    /// Whether the pattern is a number other than an infinity or a NaN.
    pub open spec fn is_finite(self) -> bool {
        self.magnitude() < INFINITY_MAGNITUDE
    }

    /// The exponent field: the eleven bits below the sign bit.
    pub open spec fn exponent_field(self) -> nat {
        self.magnitude() / (FRACTION_RANGE as nat)
    }

    /// The fraction field: the low 52 bits.
    pub open spec fn fraction_field(self) -> nat {
        self.magnitude() % (FRACTION_RANGE as nat)
    }

    /// The absolute value of a finite number, counted in units of the
    /// smallest positive number, two to the power -1074.
    ///
    /// With exponent field zero the number is subnormal and the fraction
    /// field counts the units. Otherwise the fraction has a leading one
    /// above its 52 bits, and each step of the exponent doubles the number.
    pub open spec fn scaled_magnitude(self) -> nat {
        if self.exponent_field() == 0 {
            self.fraction_field()
        } else {
            (FRACTION_RANGE + self.fraction_field()) as nat * pow2((self.exponent_field() - 1) as nat)
        }
    }

    /// The value of a finite number, counted in units of the smallest
    /// positive number. Both zeros have the value zero.
    pub open spec fn scaled_value(self) -> int {
        if self.is_sign_negative() {
            -(self.scaled_magnitude() as int)
        } else {
            self.scaled_magnitude() as int
        }
    }

    /// Position of a number that is not a NaN on the number line.
    ///
    /// Among patterns of one sign, a larger magnitude is a number further
    /// from zero, so the signed magnitude orders the numbers as their values
    /// do. Both zeros have rank zero.
    pub open spec fn rank(self) -> int {
        if self.is_sign_negative() {
            -(self.magnitude() as int)
        } else {
            self.magnitude() as int
        }
    }

    /// `self > other` as IEEE 754 defines it: false if either is a NaN.
    pub open spec fn spec_gt(self, other: Double) -> bool {
        !self.is_nan() && !other.is_nan() && self.rank() > other.rank()
    }

    /// `self <= other` as IEEE 754 defines it: false if either is a NaN.
    pub open spec fn spec_le(self, other: Double) -> bool {
        !self.is_nan() && !other.is_nan() && self.rank() <= other.rank()
    }

    /// The number with the given bit pattern.
    pub fn from_bits(bits: u64) -> (r: Double)
        ensures
            r.bits == bits,
    {
        Double { bits }
    }

    /// The bit pattern of the number.
    pub fn to_bits(self) -> (r: u64)
        ensures
            r == self.bits,
    {
        self.bits
    }

    /// Whether the number is a NaN.
    pub fn check_nan(self) -> (r: bool)
        ensures
            r == self.is_nan(),
    {
        if self.bits >= SIGN_BIT {
            self.bits - SIGN_BIT > INFINITY_MAGNITUDE
        } else {
            self.bits > INFINITY_MAGNITUDE
        }
    }

    /// Whether `self` is greater than `other`.
    pub fn gt(self, other: Double) -> (r: bool)
        ensures
            r == self.spec_gt(other),
    {
        if self.check_nan() || other.check_nan() {
            return false;
        }
        let negative: bool = self.bits >= SIGN_BIT;
        let other_negative: bool = other.bits >= SIGN_BIT;
        if negative {
            // A number at or below zero exceeds only a negative number of
            // larger magnitude.
            other_negative && self.bits < other.bits
        } else if other_negative {
            // The ranks differ unless both are zeros.
            self.bits > 0 || other.bits > SIGN_BIT
        } else {
            self.bits > other.bits
        }
    }

    /// Whether `self` is less than or equal to `other`.
    pub fn le(self, other: Double) -> (r: bool)
        ensures
            r == self.spec_le(other),
    {
        if self.check_nan() || other.check_nan() {
            return false;
        }
        !self.gt(other)
    }
}

/// Of two numbers, at most one of `>` and `<=` holds, and exactly one unless
/// a NaN is involved.
pub proof fn lemma_gt_excludes_le(a: Double, b: Double)
    ensures
        !(a.spec_gt(b) && a.spec_le(b)),
        !a.is_nan() && !b.is_nan() ==> (a.spec_gt(b) || a.spec_le(b)),
        a.is_nan() || b.is_nan() ==> !a.spec_gt(b) && !a.spec_le(b),
{
}

/// Among finite numbers, a larger magnitude of the pattern is a larger
/// absolute value.
pub proof fn lemma_scaled_magnitude_increases(a: Double, b: Double)
    requires
        a.is_finite(),
        b.is_finite(),
        a.magnitude() < b.magnitude(),
    ensures
        a.scaled_magnitude() < b.scaled_magnitude(),
{
    let range = FRACTION_RANGE as nat;
    let exponent_a = a.exponent_field();
    let exponent_b = b.exponent_field();
    let fraction_a = a.fraction_field();
    let fraction_b = b.fraction_field();
    assert(a.magnitude() == exponent_a * range + fraction_a);
    assert(b.magnitude() == exponent_b * range + fraction_b);
    assert(exponent_a <= exponent_b);
    if exponent_a == exponent_b {
        if exponent_a > 0 {
            let step = pow2((exponent_a - 1) as nat);
            lemma_pow2_pos((exponent_a - 1) as nat);
            assert((range + fraction_a) * step < (range + fraction_b) * step) by (nonlinear_arith)
                requires
                    fraction_a < fraction_b,
                    step > 0,
            ;
        }
    } else {
        let step_b = pow2((exponent_b - 1) as nat);
        lemma_pow2_pos((exponent_b - 1) as nat);
        assert((range + fraction_b) * step_b >= range * step_b >= range) by (nonlinear_arith)
            requires
                step_b > 0,
        ;
        if exponent_a > 0 {
            let step_a = pow2((exponent_a - 1) as nat);
            lemma_pow2_pos((exponent_a - 1) as nat);
            lemma_pow2_unfold(exponent_a);
            if exponent_a < exponent_b - 1 {
                lemma_pow2_strictly_increases(exponent_a, (exponent_b - 1) as nat);
            }
            assert((range + fraction_a) * step_a < range * step_b) by (nonlinear_arith)
                requires
                    fraction_a < range,
                    2 * step_a <= step_b,
                    step_a > 0,
            ;
        }
    }
}

/// Only the zeros have the value zero.
pub proof fn lemma_scaled_magnitude_zero(a: Double)
    requires
        a.is_finite(),
    ensures
        a.scaled_magnitude() == 0 <==> a.magnitude() == 0,
{
    if a.magnitude() > 0 {
        let zero = Double { bits: 0 };
        assert(zero.scaled_magnitude() == 0);
        lemma_scaled_magnitude_increases(zero, a);
    }
}

/// The order of the patterns is the order of the numbers: of two finite
/// numbers, `a > b` holds exactly when the value of `a` is the larger, and
/// `a <= b` exactly when it is not.
pub proof fn lemma_order_is_numeric(a: Double, b: Double)
    requires
        a.is_finite(),
        b.is_finite(),
    ensures
        a.spec_gt(b) <==> a.scaled_value() > b.scaled_value(),
        a.spec_le(b) <==> a.scaled_value() <= b.scaled_value(),
{
    lemma_scaled_magnitude_zero(a);
    lemma_scaled_magnitude_zero(b);
    if a.magnitude() < b.magnitude() {
        lemma_scaled_magnitude_increases(a, b);
    } else if b.magnitude() < a.magnitude() {
        lemma_scaled_magnitude_increases(b, a);
    }
}

/// Positive infinity is above every other number and negative infinity
/// below: whatever is not a NaN lies between them.
pub proof fn lemma_infinities_bound(a: Double)
    requires
        !a.is_nan(),
    ensures
        a.spec_le(Double { bits: INFINITY_MAGNITUDE }),
        (Double { bits: (SIGN_BIT + INFINITY_MAGNITUDE) as u64 }).spec_le(a),
        a.is_finite() ==> (Double { bits: INFINITY_MAGNITUDE }).spec_gt(a),
        a.is_finite() ==> a.spec_gt(Double { bits: (SIGN_BIT + INFINITY_MAGNITUDE) as u64 }),
{
}

/// A binary32 number. The library carries such numbers and never orders them.
#[derive(Clone, Copy, Debug, PartialEq, Eq, Hash, Structural)]
pub struct Single {
    pub bits: u32,
}

impl Single {
    /// The number with the given bit pattern.
    pub fn from_bits(bits: u32) -> (r: Single)
        ensures
            r.bits == bits,
    {
        Single { bits }
    }

    /// The bit pattern of the number.
    pub fn to_bits(self) -> (r: u32)
        ensures
            r == self.bits,
    {
        self.bits
    }
}

} // verus!
