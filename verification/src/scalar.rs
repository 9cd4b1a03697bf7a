//! An exact scalar for the engine's tunable quantities.
//!
//! The record's scalar settings (a timestep in seconds, an error-reduction
//! fraction, a slop distance in meters) are carried as exact rational numbers
//! `num / den`. Every documented default (`1/60`, `0.2`, `0.005`, ...) is such
//! a rational, and the reciprocal that relates a timestep to a frequency is an
//! exact swap of numerator and denominator, so no rounding is involved
//! anywhere in the record's arithmetic.

use vstd::prelude::*;

verus! {

/// An exact scalar: the rational number `num / den`.
///
/// A well-formed value keeps `1 <= den <= i64::MAX` (see [`Real::wf`]) so that
/// a reciprocal can always be formed by swapping the two components.
#[derive(Clone, Copy, Debug, PartialEq, Eq, Structural)]
pub struct Real {
    /// The numerator; its sign is the sign of the scalar.
    pub num: i64,
    /// The denominator; always at least one in a well-formed value.
    pub den: u64,
}

impl Real {
    /// The representation is valid: the denominator is positive, and small
    /// enough to become a numerator when the value is inverted.
    pub open spec fn wf(self) -> bool {
        1 <= self.den <= i64::MAX
    }

    /// The scalar denotes zero.
    pub open spec fn is_zero(self) -> bool {
        self.num == 0
    }

    /// The scalar denotes a value greater than or equal to zero.
    pub open spec fn is_nonneg(self) -> bool {
        self.num >= 0
    }

    /// The reciprocal of a non-negative scalar, with zero mapped to zero:
    /// a paused simulation (timestep zero) has frequency zero, not a
    /// division by zero.
    pub open spec fn recip(self) -> Real {
        if self.num == 0 {
            Real { num: 0, den: 1 }
        } else {
            Real { num: self.den as i64, den: self.num as u64 }
        }
    }

    /// Builds the scalar `num / den`.
    pub fn new(num: i64, den: u64) -> (r: Real)
        requires
            1 <= den <= i64::MAX,
        ensures
            r == (Real { num, den }),
            r.wf(),
    {
        Real { num, den }
    }

    /// Builds the whole scalar `n`.
    pub fn from_int(n: i64) -> (r: Real)
        ensures
            r == (Real { num: n, den: 1 }),
            r.wf(),
    {
        Real { num: n, den: 1 }
    }

    /// The scalar zero.
    pub fn zero() -> (r: Real)
        ensures
            r == (Real { num: 0, den: 1 }),
            r.wf(),
            r.is_zero(),
    {
        Real { num: 0, den: 1 }
    }

    /// Whether the representation is valid, decided at run time.
    pub fn check_wf(&self) -> (b: bool)
        ensures
            b == self.wf(),
    {
        1 <= self.den && self.den <= i64::MAX as u64
    }

    /// The reciprocal, computed by swapping numerator and denominator;
    /// zero stays zero.
    pub fn reciprocal(&self) -> (r: Real)
        requires
            self.wf(),
            self.is_nonneg(),
        ensures
            r == self.recip(),
            r.wf(),
            r.is_nonneg(),
    {
        proof {
            lemma_recip_wf(*self);
        }
        if self.num == 0 {
            Real { num: 0, den: 1 }
        } else {
            Real { num: self.den as i64, den: self.num as u64 }
        }
    }
}

/// The reciprocal of a well-formed non-negative scalar is well formed and
/// non-negative, and is zero exactly when the scalar is zero.
pub proof fn lemma_recip_wf(r: Real)
    requires
        r.wf(),
        r.is_nonneg(),
    ensures
        r.recip().wf(),
        r.recip().is_nonneg(),
        r.recip().is_zero() <==> r.is_zero(),
{
}

/// Law: on well-formed non-negative scalars the reciprocal is an involution —
/// inverting twice restores the exact representation, except that every zero
/// normalizes to `0 / 1`.
pub proof fn lemma_recip_involution(r: Real)
    requires
        r.wf(),
        r.is_nonneg(),
    ensures
        !r.is_zero() ==> r.recip().recip() == r,
        r.is_zero() ==> r.recip().recip() == (Real { num: 0, den: 1 }),
{
}

/// The product of the two scalars is exactly one
/// (`a/b * c/d == 1` exactly when `a*c == b*d`).
pub open spec fn product_is_one(a: Real, b: Real) -> bool {
    a.num * b.num == a.den * b.den
}

/// Law: a nonzero non-negative scalar times its reciprocal is exactly one.
pub proof fn lemma_recip_product_one(r: Real)
    requires
        r.wf(),
        r.is_nonneg(),
        !r.is_zero(),
    ensures
        product_is_one(r, r.recip()),
{
    assert(r.num * (r.den as i64) == r.den * (r.num as u64)) by (nonlinear_arith)
        requires
            0 < r.num <= i64::MAX,
            1 <= r.den <= i64::MAX,
    ;
}

} // verus!
