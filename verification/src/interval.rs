//! Closed intervals of scalars, and the operations on them that need no
//! arithmetic: they bound the sign changes and the sharp CSG operators.
use vstd::prelude::*;
use crate::scalar::{
    lemma_opposite, Scalar, INFINITY_BITS, MINUS_INFINITY_BITS, MINUS_ONE_BITS, MINUS_ZERO_BITS,
    ONE_BITS, ZERO_BITS,
};

verus! {

/// The closed interval from `lo` to `hi`.
#[derive(Clone, Copy, Debug, PartialEq, Eq, Structural)]
pub struct Interval {
    pub lo: Scalar,
    pub hi: Scalar,
}

impl Interval {
    /// The lower end is not above the upper end.
    pub open spec fn ordered(self) -> bool {
        self.lo.at_most(self.hi)
    }

    /// `v` lies between the ends, in the total order.
    pub open spec fn contains(self, v: Scalar) -> bool {
        self.lo.at_most(v) && v.at_most(self.hi)
    }

    /// The interval of the opposites: the ends change places and signs.
    pub open spec fn opposite(self) -> Interval {
        Interval { lo: self.hi.opposite(), hi: self.lo.opposite() }
    }

    /// The lower of the lower ends and the lower of the upper ends.
    pub open spec fn lesser(self, other: Interval) -> Interval {
        Interval { lo: self.lo.lesser(other.lo), hi: self.hi.lesser(other.hi) }
    }

    /// The higher of the lower ends and the higher of the upper ends.
    pub open spec fn greater(self, other: Interval) -> Interval {
        Interval { lo: self.lo.greater(other.lo), hi: self.hi.greater(other.hi) }
    }

    /// Zero may lie in the interval: the lower end is a number not above
    /// zero, and the upper end a number not below it.
    pub open spec fn around_zero(self) -> bool {
        !self.lo.nan() && !self.lo.positive() && !self.hi.nan() && !self.hi.negative()
    }

    /// The interval from `lo` to `hi`.
    pub fn new(lo: Scalar, hi: Scalar) -> (r: Interval)
        ensures
            r == (Interval { lo, hi }),
    {
        Interval { lo, hi }
    }

    /// The interval that holds `c` alone.
    pub fn point(c: Scalar) -> (r: Interval)
        ensures
            r == (Interval { lo: c, hi: c }),
            r.ordered(),
            r.contains(c),
    {
        Interval { lo: c, hi: c }
    }

    /// The interval from minus one to one, which holds every sine and
    /// cosine.
    pub fn unit() -> (r: Interval)
        ensures
            r == (Interval {
                lo: Scalar { bits: MINUS_ONE_BITS },
                hi: Scalar { bits: ONE_BITS },
            }),
            r.ordered(),
    {
        Interval { lo: Scalar { bits: MINUS_ONE_BITS }, hi: Scalar { bits: ONE_BITS } }
    }

    /// The whole line, from minus infinity to plus infinity.
    pub fn whole() -> (r: Interval)
        ensures
            r == (Interval {
                lo: Scalar { bits: MINUS_INFINITY_BITS },
                hi: Scalar { bits: INFINITY_BITS },
            }),
            r.ordered(),
            forall|v: Scalar| !v.nan() ==> r.contains(v),
    {
        Interval {
            lo: Scalar { bits: MINUS_INFINITY_BITS },
            hi: Scalar { bits: INFINITY_BITS },
        }
    }

    /// The bound of `-f` from that of `f`.
    pub fn neg(self) -> (r: Interval)
        ensures
            r == self.opposite(),
            self.ordered() ==> r.ordered(),
    {
        proof {
            lemma_opposite(self.lo, self.hi);
        }
        Interval { lo: self.hi.neg(), hi: self.lo.neg() }
    }

    /// The bound of `min(f, g)` from those of `f` and `g`.
    pub fn min(self, other: Interval) -> (r: Interval)
        ensures
            r == self.lesser(other),
            self.ordered() && other.ordered() ==> r.ordered(),
    {
        Interval { lo: self.lo.min(other.lo), hi: self.hi.min(other.hi) }
    }

    /// The bound of `max(f, g)` from those of `f` and `g`.
    pub fn max(self, other: Interval) -> (r: Interval)
        ensures
            r == self.greater(other),
            self.ordered() && other.ordered() ==> r.ordered(),
    {
        Interval { lo: self.lo.max(other.lo), hi: self.hi.max(other.hi) }
    }

    /// Whether zero may lie in the interval, so that a quotient by a value
    /// in it has no bound.
    pub fn straddles_zero(self) -> (r: bool)
        ensures
            r == self.around_zero(),
    {
        !self.lo.is_nan() && !self.lo.is_positive() && !self.hi.is_nan() && !self.hi.is_negative()
    }
}

/// The bounds enclose. Where `a` holds `u` and `b` holds `v`, the bound of
/// the opposite holds the opposite of `u`, the bound of the lower holds the
/// lower of `u` and `v`, and the bound of the higher the higher.
pub proof fn lemma_bounds_enclose(a: Interval, b: Interval, u: Scalar, v: Scalar)
    requires
        a.contains(u),
        b.contains(v),
    ensures
        a.opposite().contains(u.opposite()),
        a.lesser(b).contains(u.lesser(v)),
        a.greater(b).contains(u.greater(v)),
{
    lemma_opposite(a.lo, u);
    lemma_opposite(u, a.hi);
}

/// An ordered interval between two numbers is around zero exactly when it
/// holds one of the two zeros.
pub proof fn lemma_around_zero(a: Interval)
    requires
        a.ordered(),
        !a.lo.nan(),
        !a.hi.nan(),
    ensures
        a.around_zero() <==> a.contains(Scalar { bits: ZERO_BITS }) || a.contains(
            Scalar { bits: MINUS_ZERO_BITS },
        ),
{
}

} // verus!
