//! Exact rational scalars.
//!
//! Every scalar quantity of the renderer core (clip distances, scattering
//! constants, texel sizes, shadow attenuation fractions) is an integer
//! numerator over a positive integer denominator.  Two rationals are the
//! same quantity when they cross-multiply equal; nothing here is rounded.

use vstd::prelude::*;

verus! {

/// A rational number `num / den` with `den > 0`.
#[derive(Clone, Copy, Debug)]
pub struct Rat {
    pub num: i64,
    pub den: i64,
}

impl Rat {
    /// The representation is usable only with a positive denominator.
    pub open spec fn wf(self) -> bool {
        self.den > 0
    }

    /// `self` and `o` denote the same rational quantity.
    pub open spec fn eqv(self, o: Rat) -> bool {
        self.num * o.den == o.num * self.den
    }

    /// `self <= o` as rational quantities (meaningful when both are `wf`).
    pub open spec fn spec_le(self, o: Rat) -> bool {
        self.num * o.den <= o.num * self.den
    }

    /// `self < o` as rational quantities (meaningful when both are `wf`).
    pub open spec fn spec_lt(self, o: Rat) -> bool {
        self.num * o.den < o.num * self.den
    }

    /// Both components are bounded by `b` in magnitude.
    pub open spec fn bounded(self, b: int) -> bool {
        -b <= self.num <= b && self.den <= b
    }

    /// The rational with value `n`.
    pub fn whole(n: i64) -> (r: Rat)
        ensures
            r.wf(),
            r.num == n,
            r.den == 1,
    {
        Rat { num: n, den: 1 }
    }

    /// The rational `n / d`.
    pub fn new(n: i64, d: i64) -> (r: Rat)
        requires
            d > 0,
        ensures
            r.wf(),
            r.num == n,
            r.den == d,
    {
        Rat { num: n, den: d }
    }
}

/// `a * b`, exactly.
pub fn rat_mul(a: Rat, b: Rat) -> (r: Rat)
    requires
        a.wf(),
        b.wf(),
        i64::MIN <= a.num * b.num <= i64::MAX,
        a.den * b.den <= i64::MAX,
    ensures
        r.wf(),
        r.num == a.num * b.num,
        r.den == a.den * b.den,
{
    proof {
        lemma_pos_mul_pos(a.den as int, b.den as int);
    }
    Rat { num: a.num * b.num, den: a.den * b.den }
}

/// `a + b`, exactly.
pub fn rat_add(a: Rat, b: Rat) -> (r: Rat)
    requires
        a.wf(),
        b.wf(),
        i64::MIN <= a.num * b.den + b.num * a.den <= i64::MAX,
        a.den * b.den <= i64::MAX,
    ensures
        r.wf(),
        r.num == a.num * b.den + b.num * a.den,
        r.den == a.den * b.den,
{
    proof {
        lemma_pos_mul_pos(a.den as int, b.den as int);
        lemma_i64_mul_pos_bound(a.num as int, b.den as int);
        lemma_i64_mul_pos_bound(b.num as int, a.den as int);
    }
    let n: i128 = (a.num as i128) * (b.den as i128) + (b.num as i128) * (a.den as i128);
    Rat { num: n as i64, den: a.den * b.den }
}

/// `a - b`, exactly.
pub fn rat_sub(a: Rat, b: Rat) -> (r: Rat)
    requires
        a.wf(),
        b.wf(),
        i64::MIN <= a.num * b.den - b.num * a.den <= i64::MAX,
        a.den * b.den <= i64::MAX,
    ensures
        r.wf(),
        r.num == a.num * b.den - b.num * a.den,
        r.den == a.den * b.den,
{
    proof {
        lemma_pos_mul_pos(a.den as int, b.den as int);
        lemma_i64_mul_pos_bound(a.num as int, b.den as int);
        lemma_i64_mul_pos_bound(b.num as int, a.den as int);
    }
    let n: i128 = (a.num as i128) * (b.den as i128) - (b.num as i128) * (a.den as i128);
    Rat { num: n as i64, den: a.den * b.den }
}

/// `1 / a` for a strictly positive `a`.
pub fn rat_recip(a: Rat) -> (r: Rat)
    requires
        a.wf(),
        a.num > 0,
    ensures
        r.wf(),
        r.num == a.den,
        r.den == a.num,
{
    Rat { num: a.den, den: a.num }
}

/// Whether `a <= b` as rational quantities.
pub fn rat_le(a: Rat, b: Rat) -> (r: bool)
    requires
        a.wf(),
        b.wf(),
    ensures
        r == a.spec_le(b),
{
    proof {
        lemma_i64_mul_fits(a.num as int, b.den as int);
        lemma_i64_mul_fits(b.num as int, a.den as int);
    }
    (a.num as i128) * (b.den as i128) <= (b.num as i128) * (a.den as i128)
}

/// Whether `a < b` as rational quantities.
pub fn rat_lt(a: Rat, b: Rat) -> (r: bool)
    requires
        a.wf(),
        b.wf(),
    ensures
        r == a.spec_lt(b),
{
    proof {
        lemma_i64_mul_fits(a.num as int, b.den as int);
        lemma_i64_mul_fits(b.num as int, a.den as int);
    }
    (a.num as i128) * (b.den as i128) < (b.num as i128) * (a.den as i128)
}

/// A product of positives is positive.
pub proof fn lemma_pos_mul_pos(a: int, b: int)
    by (nonlinear_arith)
    requires
        a > 0,
        b > 0,
    ensures
        a * b > 0,
{
}

/// A product of two `i64` values stays within the `i128` range.
pub proof fn lemma_i64_mul_fits(a: int, b: int)
    by (nonlinear_arith)
    requires
        i64::MIN <= a <= i64::MAX,
        i64::MIN <= b <= i64::MAX,
    ensures
        i128::MIN <= a * b <= i128::MAX,
{
}

/// An `i64` value times a positive `i64` value stays well inside `i128`,
/// with room for a second such product.
pub proof fn lemma_i64_mul_pos_bound(a: int, b: int)
    by (nonlinear_arith)
    requires
        i64::MIN <= a <= i64::MAX,
        1 <= b <= i64::MAX,
    ensures
        i64::MIN * i64::MAX <= a * b <= i64::MAX * i64::MAX,
{
}

} // verus!
