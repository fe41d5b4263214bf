//! Ratios of integers, the numbers that pressures and depths are computed in.

use vstd::prelude::*;

verus! {

/// The rational number `num / den`. Every ratio that the library builds has
/// a positive denominator.
pub struct Ratio {
    pub num: int,
    pub den: int,
}

impl Ratio {
    /// `self < other`, for two ratios with positive denominators.
    pub open spec fn is_below(self, other: Ratio) -> bool {
        self.num * other.den < other.num * self.den
    }

    /// `self <= other`, for two ratios with positive denominators.
    pub open spec fn is_at_most(self, other: Ratio) -> bool {
        self.num * other.den <= other.num * self.den
    }

    /// The largest integer that is not above the ratio.
    pub open spec fn floor(self) -> int {
        self.num / self.den
    }
}

/// A ratio of two machine integers.
#[derive(Clone, Copy, Debug, PartialEq, Eq, Structural)]
pub struct Rational {
    pub num: i128,
    pub den: i128,
}

impl View for Rational {
    type V = Ratio;

    open spec fn view(&self) -> Ratio {
        Ratio { num: self.num as int, den: self.den as int }
    }
}

impl Rational {
    /// The largest integer that is not above the ratio.
    pub fn floor(&self) -> (whole: i128)
        requires
            self.den > 0,
        ensures
            whole == self@.floor(),
    {
        proof {
            lemma_floor_within(self.num as int, self.den as int);
        }
        match self.num.checked_div_euclid(self.den) {
            Some(quotient) => quotient,
            None => 0,
        }
    }
}

/// What is below a ratio is below whatever that ratio is at most.
pub proof fn lemma_below_then_at_most(a: Ratio, b: Ratio, c: Ratio)
    requires
        a.den > 0,
        b.den > 0,
        c.den > 0,
        a.is_below(b),
        b.is_at_most(c),
    ensures
        a.is_below(c),
{
    assert(a.num * c.den < c.num * a.den) by (nonlinear_arith)
        requires
            a.den > 0,
            b.den > 0,
            c.den > 0,
            a.num * b.den < b.num * a.den,
            b.num * c.den <= c.num * b.den,
    {
        assert((a.num * b.den) * c.den < (b.num * a.den) * c.den);
        assert((b.num * c.den) * a.den <= (c.num * b.den) * a.den);
        assert((a.num * c.den) * b.den < (c.num * a.den) * b.den);
    }
}

/// What is at most a ratio is below whatever that ratio is below.
pub proof fn lemma_at_most_then_below(a: Ratio, b: Ratio, c: Ratio)
    requires
        a.den > 0,
        b.den > 0,
        c.den > 0,
        a.is_at_most(b),
        b.is_below(c),
    ensures
        a.is_below(c),
{
    assert(a.num * c.den < c.num * a.den) by (nonlinear_arith)
        requires
            a.den > 0,
            b.den > 0,
            c.den > 0,
            a.num * b.den <= b.num * a.den,
            b.num * c.den < c.num * b.den,
    {
        assert((a.num * b.den) * c.den <= (b.num * a.den) * c.den);
        assert((b.num * c.den) * a.den < (c.num * b.den) * a.den);
        assert((a.num * c.den) * b.den < (c.num * a.den) * b.den);
    }
}

/// A ratio lies between its floor and the next integer.
pub proof fn lemma_floor_brackets(ratio: Ratio)
    requires
        ratio.den > 0,
    ensures
        ratio.floor() * ratio.den <= ratio.num < (ratio.floor() + 1) * ratio.den,
{
    let num = ratio.num;
    let den = ratio.den;
    assert((num / den) * den <= num < (num / den + 1) * den) by (nonlinear_arith)
        requires
            den > 0,
    ;
}

/// The floor of `num / den` lies between `num` and zero.
pub proof fn lemma_floor_within(num: int, den: int)
    requires
        den > 0,
    ensures
        num >= 0 ==> 0 <= num / den <= num,
        num < 0 ==> num <= num / den < 0,
{
    assert(num >= 0 ==> 0 <= num / den <= num) by (nonlinear_arith)
        requires
            den > 0,
    ;
    assert(num < 0 ==> num <= num / den < 0) by (nonlinear_arith)
        requires
            den > 0,
    ;
}

} // verus!
