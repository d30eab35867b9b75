//! Scalars as the bit patterns of IEEE-754 binary64 numbers.
use vstd::prelude::*;

verus! {

/// A double-precision number, held as its sixty-four bits.
///
/// Equality is identity of representation: two scalars are equal exactly
/// when their bits are.
#[derive(Clone, Copy, Debug, PartialEq, Eq, Structural)]
pub struct Scalar {
    pub bits: u64,
}

/// The bits of `0.0`.
pub const ZERO_BITS: u64 = 0x0000_0000_0000_0000;

/// The bits of `-0.0`.
pub const MINUS_ZERO_BITS: u64 = 0x8000_0000_0000_0000;

/// The bits of `0.5`.
pub const HALF_BITS: u64 = 0x3fe0_0000_0000_0000;

/// The bits of `1.0`.
pub const ONE_BITS: u64 = 0x3ff0_0000_0000_0000;

/// The bits of `-1.0`.
pub const MINUS_ONE_BITS: u64 = 0xbff0_0000_0000_0000;

/// The bits of `4.0`.
pub const FOUR_BITS: u64 = 0x4010_0000_0000_0000;

/// The bits of plus infinity.
pub const INFINITY_BITS: u64 = 0x7ff0_0000_0000_0000;

/// The bits of minus infinity.
pub const MINUS_INFINITY_BITS: u64 = 0xfff0_0000_0000_0000;

/// The exponent field of a finite binary64 number is not all ones.
pub open spec fn bits_finite(bits: u64) -> bool {
    bits & 0x7ff0_0000_0000_0000 != 0x7ff0_0000_0000_0000
}

impl Scalar {
    /// Neither an infinity nor a NaN.
    pub open spec fn finite(self) -> bool {
        bits_finite(self.bits)
    }

    /// The place of the scalar in the total order of floating-point numbers:
    /// the NaNs with the sign bit set, minus infinity, the negative numbers,
    /// minus zero, plus zero, the positive numbers, plus infinity, and the
    /// NaNs with the sign bit clear. A scalar with the sign bit set stands
    /// the lower, the larger the rest of its bits.
    pub open spec fn rank(self) -> int {
        if self.bits >= 0x8000_0000_0000_0000 {
            0x8000_0000_0000_0000 - self.bits - 1
        } else {
            self.bits as int
        }
    }

    /// Not above `other` in the total order.
    pub open spec fn at_most(self, other: Scalar) -> bool {
        self.rank() <= other.rank()
    }

    /// The lower of the two in the total order.
    pub open spec fn lesser(self, other: Scalar) -> Scalar {
        if self.at_most(other) {
            self
        } else {
            other
        }
    }

    /// The higher of the two in the total order.
    pub open spec fn greater(self, other: Scalar) -> Scalar {
        if self.at_most(other) {
            other
        } else {
            self
        }
    }

    /// A NaN: what follows the sign bit is beyond the infinity.
    pub open spec fn nan(self) -> bool {
        0x7ff0_0000_0000_0000 < self.bits < 0x8000_0000_0000_0000 || 0xfff0_0000_0000_0000
            < self.bits
    }

    /// Strictly above zero: the sign bit is clear, and the rest is neither
    /// zero nor beyond the infinity.
    pub open spec fn positive(self) -> bool {
        0 < self.bits <= 0x7ff0_0000_0000_0000
    }

    /// The scalar with the other sign: the sign bit is turned, and the rest
    /// is as it was.
    pub open spec fn opposite(self) -> Scalar {
        if self.bits >= 0x8000_0000_0000_0000 {
            Scalar { bits: (self.bits - 0x8000_0000_0000_0000) as u64 }
        } else {
            Scalar { bits: (self.bits + 0x8000_0000_0000_0000) as u64 }
        }
    }

    /// Strictly below zero: the sign bit is set, and what follows it is
    /// neither zero, which would be minus zero, nor beyond the infinity,
    /// which would be a NaN.
    pub open spec fn negative(self) -> bool {
        0x8000_0000_0000_0000 < self.bits <= 0xfff0_0000_0000_0000
    }

    /// The scalar with the given bit pattern.
    pub fn from_bits(bits: u64) -> (r: Scalar)
        ensures
            r.bits == bits,
    {
        Scalar { bits }
    }

    /// The bit pattern of this scalar.
    pub fn to_bits(self) -> (r: u64)
        ensures
            r == self.bits,
    {
        self.bits
    }

    /// Whether the scalar is neither an infinity nor a NaN.
    pub fn is_finite(self) -> (r: bool)
        ensures
            r == self.finite(),
    {
        self.bits & 0x7ff0_0000_0000_0000 != 0x7ff0_0000_0000_0000
    }

    /// Whether the scalar is not above `other` in the total order.
    pub fn total_le(self, other: Scalar) -> (r: bool)
        ensures
            r == self.at_most(other),
    {
        let low = self.bits >= 0x8000_0000_0000_0000;
        let other_low = other.bits >= 0x8000_0000_0000_0000;
        if low && other_low {
            self.bits >= other.bits
        } else if low {
            true
        } else if other_low {
            false
        } else {
            self.bits <= other.bits
        }
    }

    /// The lower of the two in the total order.
    pub fn min(self, other: Scalar) -> (r: Scalar)
        ensures
            r == self.lesser(other),
    {
        if self.total_le(other) {
            self
        } else {
            other
        }
    }

    /// The higher of the two in the total order.
    pub fn max(self, other: Scalar) -> (r: Scalar)
        ensures
            r == self.greater(other),
    {
        if self.total_le(other) {
            other
        } else {
            self
        }
    }

    /// Whether the scalar is a NaN.
    pub fn is_nan(self) -> (r: bool)
        ensures
            r == self.nan(),
    {
        (0x7ff0_0000_0000_0000 < self.bits && self.bits < 0x8000_0000_0000_0000)
            || 0xfff0_0000_0000_0000 < self.bits
    }

    /// Whether the scalar is strictly above zero.
    pub fn is_positive(self) -> (r: bool)
        ensures
            r == self.positive(),
    {
        0 < self.bits && self.bits <= 0x7ff0_0000_0000_0000
    }

    /// The scalar with the other sign.
    pub fn neg(self) -> (r: Scalar)
        ensures
            r == self.opposite(),
    {
        if self.bits >= 0x8000_0000_0000_0000 {
            Scalar { bits: self.bits - 0x8000_0000_0000_0000 }
        } else {
            Scalar { bits: self.bits + 0x8000_0000_0000_0000 }
        }
    }

    /// Whether the scalar is strictly below zero.
    pub fn is_negative(self) -> (r: bool)
        ensures
            r == self.negative(),
    {
        0x8000_0000_0000_0000 < self.bits && self.bits <= 0xfff0_0000_0000_0000
    }
}

/// The total order is an order: every scalar is at most itself, two scalars
/// that are at most each other are the same, and the relation is transitive.
/// It is total: of two scalars one is at most the other.
pub proof fn lemma_total_order(a: Scalar, b: Scalar, c: Scalar)
    ensures
        a.at_most(a),
        a.at_most(b) && b.at_most(a) ==> a == b,
        a.at_most(b) && b.at_most(c) ==> a.at_most(c),
        a.at_most(b) || b.at_most(a),
{
}

/// The lower of two scalars is one of them and at most either; the higher
/// of two scalars is one of them and at least either.
pub proof fn lemma_min_max_bounds(a: Scalar, b: Scalar)
    ensures
        a.lesser(b) == a || a.lesser(b) == b,
        a.lesser(b).at_most(a),
        a.lesser(b).at_most(b),
        a.greater(b) == a || a.greater(b) == b,
        a.at_most(a.greater(b)),
        b.at_most(a.greater(b)),
{
}

/// Turning the sign twice gives the scalar back. Turning the sign turns
/// the total order round, and above zero into below zero; a NaN stays a NaN.
pub proof fn lemma_opposite(a: Scalar, b: Scalar)
    ensures
        a.opposite().opposite() == a,
        a.at_most(b) <==> b.opposite().at_most(a.opposite()),
        a.opposite().negative() <==> a.positive(),
        a.opposite().positive() <==> a.negative(),
        a.opposite().nan() <==> a.nan(),
{
}

/// A scalar that is not a NaN is below zero, a zero, or above zero, and
/// only one of these. The zeros and everything finite are no NaN.
pub proof fn lemma_signs(a: Scalar)
    ensures
        !(a.negative() && a.positive()),
        a.negative() || a.positive() ==> !a.nan(),
        !a.nan() && !a.negative() && !a.positive() ==> a.bits == 0 || a.bits
            == 0x8000_0000_0000_0000,
        a.nan() ==> !a.finite(),
{
    let x = a.bits;
    assert((0x7ff0_0000_0000_0000 < x && x < 0x8000_0000_0000_0000) || 0xfff0_0000_0000_0000 < x
        ==> x & 0x7ff0_0000_0000_0000 == 0x7ff0_0000_0000_0000) by (bit_vector);
}

/// The signs of the CSG operators. Where two fields have values that are
/// no NaN, the lower of the values is below zero exactly when one of them
/// is, the higher exactly when both are, and the higher of the first and
/// the opposite of the second exactly when the first is below zero and the
/// second above. So `min` is the union of two solids, `max` their
/// intersection, and `max(a, -b)` their difference.
pub proof fn lemma_csg_signs(a: Scalar, b: Scalar)
    requires
        !a.nan(),
        !b.nan(),
    ensures
        a.lesser(b).negative() <==> a.negative() || b.negative(),
        a.greater(b).negative() <==> a.negative() && b.negative(),
        a.greater(b.opposite()).negative() <==> a.negative() && b.positive(),
{
}

} // verus!
