//! Exact rational scalars.
//!
//! Screen positions, quad sizes, texture coordinates and matrix entries are
//! all quotients of small integers (pixel counts, atlas cell fractions,
//! `2 / width`, halves). A `Rat` keeps such a value exactly as a numerator
//! and a positive denominator, so arithmetic on coordinates can be specified
//! and proved without rounding. Values are not reduced to lowest terms; each
//! operation states the exact numerator and denominator it produces, which
//! makes results fully determined by their inputs.

use vstd::prelude::*;

verus! {

/// An exact rational number `num / den` with `den > 0`.
#[derive(Clone, Copy, Debug, PartialEq, Eq, Structural)]
pub struct Rat {
    pub num: i64,
    pub den: i64,
}

/// Mathematical value of a rational as a numerator/denominator pair.
pub type Q = (int, int);

/// Sum of two rational values: `a/b + c/d == (a*d + c*b) / (b*d)`.
pub open spec fn q_add(a: Q, b: Q) -> Q {
    (a.0 * b.1 + b.0 * a.1, a.1 * b.1)
}

/// Difference of two rational values: `a/b - c/d == (a*d - c*b) / (b*d)`.
pub open spec fn q_sub(a: Q, b: Q) -> Q {
    (a.0 * b.1 - b.0 * a.1, a.1 * b.1)
}

/// Product of two rational values: `(a/b) * (c/d) == (a*c) / (b*d)`.
pub open spec fn q_mul(a: Q, b: Q) -> Q {
    (a.0 * b.0, a.1 * b.1)
}

/// Negation of a rational value.
pub open spec fn q_neg(a: Q) -> Q {
    (-a.0, a.1)
}

/// Equality of rational values by cross-multiplication, so `1/2 == 2/4`.
pub open spec fn q_eq(a: Q, b: Q) -> bool {
    a.0 * b.1 == b.0 * a.1
}

impl Rat {
    /// A rational is well formed when its denominator is positive.
    pub open spec fn wf(self) -> bool {
        self.den > 0
    }

    /// The mathematical value of this rational.
    pub open spec fn val(self) -> Q {
        (self.num as int, self.den as int)
    }

    /// Both components bounded by `b`; bounds like this keep the products
    /// formed by arithmetic inside the `i64` range.
    pub open spec fn in_range(self, b: int) -> bool {
        &&& -b <= self.num <= b
        &&& 0 < self.den <= b
    }

    /// The whole number `n`.
    pub fn from_int(n: i64) -> (r: Rat)
        ensures
            r == (Rat { num: n, den: 1 }),
            r.wf(),
    {
        Rat { num: n, den: 1 }
    }

    /// The quotient `num / den`; rejected when the denominator is not positive.
    pub fn new(num: i64, den: i64) -> (r: Option<Rat>)
        ensures
            den > 0 ==> r == Some(Rat { num, den }),
            den <= 0 ==> r is None,
    {
        if den > 0 {
            Some(Rat { num, den })
        } else {
            None
        }
    }

    /// Exact rational addition.
    pub fn add(self, other: Rat) -> (r: Rat)
        requires
            self.wf(),
            other.wf(),
            i64::MIN <= self.num * other.den <= i64::MAX,
            i64::MIN <= other.num * self.den <= i64::MAX,
            i64::MIN <= self.num * other.den + other.num * self.den <= i64::MAX,
            self.den * other.den <= i64::MAX,
        ensures
            r.wf(),
            r.val() == q_add(self.val(), other.val()),
    {
        proof {
            assert(self.den * other.den > 0) by (nonlinear_arith)
                requires
                    self.den > 0,
                    other.den > 0,
            ;
        }
        Rat { num: self.num * other.den + other.num * self.den, den: self.den * other.den }
    }

    /// Exact rational subtraction.
    pub fn sub(self, other: Rat) -> (r: Rat)
        requires
            self.wf(),
            other.wf(),
            i64::MIN <= self.num * other.den <= i64::MAX,
            i64::MIN <= other.num * self.den <= i64::MAX,
            i64::MIN <= self.num * other.den - other.num * self.den <= i64::MAX,
            self.den * other.den <= i64::MAX,
        ensures
            r.wf(),
            r.val() == q_sub(self.val(), other.val()),
    {
        proof {
            assert(self.den * other.den > 0) by (nonlinear_arith)
                requires
                    self.den > 0,
                    other.den > 0,
            ;
        }
        Rat { num: self.num * other.den - other.num * self.den, den: self.den * other.den }
    }

    /// Exact rational multiplication.
    pub fn mul(self, other: Rat) -> (r: Rat)
        requires
            self.wf(),
            other.wf(),
            i64::MIN <= self.num * other.num <= i64::MAX,
            self.den * other.den <= i64::MAX,
        ensures
            r.wf(),
            r.val() == q_mul(self.val(), other.val()),
    {
        proof {
            assert(self.den * other.den > 0) by (nonlinear_arith)
                requires
                    self.den > 0,
                    other.den > 0,
            ;
        }
        Rat { num: self.num * other.num, den: self.den * other.den }
    }

    /// Exact rational negation.
    pub fn neg(self) -> (r: Rat)
        requires
            self.wf(),
            self.num > i64::MIN,
        ensures
            r.wf(),
            r.val() == q_neg(self.val()),
    {
        Rat { num: -self.num, den: self.den }
    }
}

/// When both operands have their components bounded by `p` and `q` with
/// `p * q` at most `2^61`, every side condition of `add`, `sub` and `mul`
/// holds: each cross product is at most `2^61` in magnitude, so sums and
/// differences stay within `2^62`, inside the `i64` range.
pub proof fn lemma_ops_safe(a: Rat, b: Rat, p: int, q: int)
    by (nonlinear_arith)
    requires
        1 <= p,
        1 <= q,
        p * q <= 0x2000_0000_0000_0000,
        -p <= a.num <= p,
        0 < a.den <= p,
        -q <= b.num <= q,
        0 < b.den <= q,
    ensures
        i64::MIN <= a.num * b.den <= i64::MAX,
        i64::MIN <= b.num * a.den <= i64::MAX,
        i64::MIN <= a.num * b.den + b.num * a.den <= i64::MAX,
        i64::MIN <= a.num * b.den - b.num * a.den <= i64::MAX,
        i64::MIN <= a.num * b.num <= i64::MAX,
        a.den * b.den <= i64::MAX,
{
}

} // verus!
