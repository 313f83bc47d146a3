//! Exact ratios of whole numbers.
//!
//! Lengths enter this crate as whole numbers, and the mapping of a `viewBox`
//! onto a viewport divides them. A quotient is kept as a numerator and a
//! positive denominator and is never rounded, so what the contracts say of a
//! scale or an offset holds exactly.

use vstd::prelude::*;

verus! {

/// The number `n / d`, for the contracts.
pub struct Frac {
    pub n: int,
    pub d: int,
}

impl Frac {
    /// The denominator is positive.
    pub open spec fn wf(self) -> bool {
        self.d > 0
    }

    /// `n / d` for a divisor of either sign, brought to a positive
    /// denominator.
    pub open spec fn of(n: int, d: int) -> Frac {
        if d < 0 {
            Frac { n: -n, d: -d }
        } else {
            Frac { n, d }
        }
    }

    /// The whole number `n`.
    pub open spec fn whole(n: int) -> Frac {
        Frac { n, d: 1 }
    }

    /// The two stand for the same number.
    pub open spec fn same(self, other: Frac) -> bool {
        self.n * other.d == other.n * self.d
    }

    /// `self <= other` as numbers, for positive denominators.
    pub open spec fn le(self, other: Frac) -> bool {
        self.n * other.d <= other.n * self.d
    }

    /// `self * k`.
    pub open spec fn times(self, k: int) -> Frac {
        Frac { n: self.n * k, d: self.d }
    }

    /// `self / k`, for `k` other than zero.
    pub open spec fn over(self, k: int) -> Frac {
        if k < 0 {
            Frac { n: -self.n, d: self.d * (-k) }
        } else {
            Frac { n: self.n, d: self.d * k }
        }
    }

    /// `self + other`.
    pub open spec fn plus(self, other: Frac) -> Frac {
        Frac { n: self.n * other.d + other.n * self.d, d: self.d * other.d }
    }

    /// `self - other`.
    pub open spec fn minus(self, other: Frac) -> Frac {
        Frac { n: self.n * other.d - other.n * self.d, d: self.d * other.d }
    }

    /// Small enough for one more step of arithmetic in 128 bits.
    pub open spec fn small(self) -> bool {
        &&& -0x8000_0000_0000_0000 <= self.n <= 0x8000_0000_0000_0000
        &&& 0 < self.d <= 0x4000_0000_0000_0000
    }
}

/// A ratio of two whole numbers, the second one positive.
#[derive(Clone, Copy, Debug, PartialEq, Eq, Structural)]
pub struct Ratio {
    pub num: i128,
    pub den: i128,
}

impl View for Ratio {
    type V = Frac;

    open spec fn view(&self) -> Frac {
        Frac { n: self.num as int, d: self.den as int }
    }
}

/// The product of two numbers within `a` and `b` of zero is within `a * b`.
pub proof fn product_within(x: int, y: int, a: int, b: int)
    requires
        -a <= x <= a,
        -b <= y <= b,
    ensures
        -(a * b) <= x * y <= a * b,
{
    assert(-(a * b) <= x * y <= a * b) by (nonlinear_arith)
        requires
            -a <= x <= a,
            -b <= y <= b,
    ;
}

impl Ratio {
    /// The whole number `n`.
    pub fn whole(n: i64) -> (r: Ratio)
        ensures
            r@ == Frac::whole(n as int),
            r@.wf(),
    {
        Ratio { num: n as i128, den: 1 }
    }

    /// `n / d`.
    pub fn of(n: i64, d: i64) -> (r: Ratio)
        requires
            d != 0,
        ensures
            r@ == Frac::of(n as int, d as int),
            r@.wf(),
    {
        if d < 0 {
            Ratio { num: -(n as i128), den: -(d as i128) }
        } else {
            Ratio { num: n as i128, den: d as i128 }
        }
    }

    /// Whether `self <= other` as numbers.
    pub fn le(&self, other: &Ratio) -> (r: bool)
        requires
            self@.small(),
            other@.small(),
        ensures
            r == self@.le(other@),
    {
        proof {
            product_within(
                self.num as int,
                other.den as int,
                0x8000_0000_0000_0000,
                0x4000_0000_0000_0000,
            );
            product_within(
                other.num as int,
                self.den as int,
                0x8000_0000_0000_0000,
                0x4000_0000_0000_0000,
            );
        }
        self.num * other.den <= other.num * self.den
    }

    /// `self * k`.
    pub fn times(&self, k: i64) -> (r: Ratio)
        requires
            self@.small(),
        ensures
            r@ == self@.times(k as int),
            r@.wf(),
    {
        proof {
            product_within(
                self.num as int,
                k as int,
                0x8000_0000_0000_0000,
                0x8000_0000_0000_0000,
            );
        }
        Ratio { num: self.num * (k as i128), den: self.den }
    }

    /// `self / k`.
    pub fn over(&self, k: i64) -> (r: Ratio)
        requires
            self@.small(),
            k != 0,
        ensures
            r@ == self@.over(k as int),
            r@.wf(),
    {
        proof {
            product_within(
                self.den as int,
                k as int,
                0x4000_0000_0000_0000,
                0x8000_0000_0000_0000,
            );
        }
        if k < 0 {
            let m: i128 = -(k as i128);
            assert(self.den * m > 0 && self.den * m == -(self.den * k)) by (nonlinear_arith)
                requires
                    self.den > 0,
                    m > 0,
                    m == -k,
            ;
            Ratio { num: -self.num, den: self.den * m }
        } else {
            let m: i128 = k as i128;
            assert(self.den * m > 0) by (nonlinear_arith)
                requires
                    self.den > 0,
                    m > 0,
            ;
            Ratio { num: self.num, den: self.den * m }
        }
    }

    /// `self + other`.
    pub fn plus(&self, other: &Ratio) -> (r: Ratio)
        requires
            self@.small(),
            other@.small(),
        ensures
            r@ == self@.plus(other@),
            r@.wf(),
    {
        proof {
            product_within(
                self.num as int,
                other.den as int,
                0x8000_0000_0000_0000,
                0x4000_0000_0000_0000,
            );
            product_within(
                other.num as int,
                self.den as int,
                0x8000_0000_0000_0000,
                0x4000_0000_0000_0000,
            );
            product_within(
                self.den as int,
                other.den as int,
                0x4000_0000_0000_0000,
                0x4000_0000_0000_0000,
            );
            assert(self.den * other.den > 0) by (nonlinear_arith)
                requires
                    self.den > 0,
                    other.den > 0,
            ;
        }
        Ratio {
            num: self.num * other.den + other.num * self.den,
            den: self.den * other.den,
        }
    }

    /// `self - other`.
    pub fn minus(&self, other: &Ratio) -> (r: Ratio)
        requires
            self@.small(),
            other@.small(),
        ensures
            r@ == self@.minus(other@),
            r@.wf(),
    {
        proof {
            product_within(
                self.num as int,
                other.den as int,
                0x8000_0000_0000_0000,
                0x4000_0000_0000_0000,
            );
            product_within(
                other.num as int,
                self.den as int,
                0x8000_0000_0000_0000,
                0x4000_0000_0000_0000,
            );
            product_within(
                self.den as int,
                other.den as int,
                0x4000_0000_0000_0000,
                0x4000_0000_0000_0000,
            );
            assert(self.den * other.den > 0) by (nonlinear_arith)
                requires
                    self.den > 0,
                    other.den > 0,
            ;
        }
        Ratio {
            num: self.num * other.den - other.num * self.den,
            den: self.den * other.den,
        }
    }
}

} // verus!
