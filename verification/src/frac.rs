//! Exact rational numbers for the scene geometry.
//!
//! The scene's coordinates and per-vertex scale corrections are quotients
//! of small integers (a logical width is the pixel width divided by the
//! density factor, a scale correction is the inverse of a density), so
//! they are kept as exact fractions with machine-integer parts rather
//! than as inexact binary fractions.

use vstd::prelude::*;

verus! {

/// An exact rational number `num / den` with a positive denominator.
///
/// Fractions are not reduced to lowest terms: a value is constructed once
/// from a formula and compared either field for field (the same formula
/// gives the same fields) or as a quotient via [`Frac::is_value`].
#[derive(Clone, Copy, Debug, PartialEq, Eq, Structural)]
pub struct Frac {
    pub num: i64,
    pub den: i64,
}

impl Frac {
    /// A fraction is well formed when its denominator is positive.
    pub open spec fn wf(self) -> bool {
        self.den >= 1
    }

    /// The fraction equals the rational number `n / d` (for `d >= 1`),
    /// compared by cross-multiplication.
    pub open spec fn is_value(self, n: int, d: int) -> bool {
        d >= 1 && self.den >= 1 && self.num * d == n * self.den
    }

    /// The fraction is a whole number.
    pub open spec fn is_whole(self) -> bool {
        self.num % self.den == 0
    }

    /// A density factor must be positive, and its parts small enough that
    /// every product the scene computes from it fits in an `i64`.
    pub open spec fn density_wf(self) -> bool {
        &&& 1 <= self.num <= 100000
        &&& 1 <= self.den <= 100000
    }

    /// Small enough that adding a scene offset cannot overflow.
    pub open spec fn bounded(self) -> bool {
        &&& 1 <= self.den <= 100000
        &&& -0x1000_0000_0000_0000 <= self.num <= 0x1000_0000_0000_0000
    }

    /// `self + k` as a value: the numerator moves by `k` denominators.
    pub open spec fn spec_plus(self, k: int) -> Frac {
        Frac { num: (self.num + k * self.den) as i64, den: self.den }
    }

    /// `self - k` as a value.
    pub open spec fn spec_minus(self, k: int) -> Frac {
        Frac { num: (self.num - k * self.den) as i64, den: self.den }
    }

    /// The whole number `n` as a fraction.
    pub fn of_int(n: i64) -> (r: Frac)
        ensures
            r == (Frac { num: n, den: 1 }),
    {
        Frac { num: n, den: 1 }
    }

    /// The fraction `n / d`.
    pub fn ratio(n: i64, d: i64) -> (r: Frac)
        requires
            d >= 1,
        ensures
            r == (Frac { num: n, den: d }),
            r.wf(),
    {
        Frac { num: n, den: d }
    }

    /// `self + k`, for an integer offset `k`.
    pub fn plus_int(self, k: i64) -> (r: Frac)
        requires
            self.wf(),
            -0x4000_0000_0000_0000 <= k * self.den <= 0x4000_0000_0000_0000,
            -0x7fff_ffff_ffff_ffff <= self.num + k * self.den <= 0x7fff_ffff_ffff_ffff,
        ensures
            r.num == self.num + k * self.den,
            r.den == self.den,
            r.wf(),
            r == self.spec_plus(k as int),
    {
        Frac { num: self.num + k * self.den, den: self.den }
    }

    /// `self - k`, for an integer offset `k`.
    pub fn minus_int(self, k: i64) -> (r: Frac)
        requires
            self.wf(),
            -0x4000_0000_0000_0000 <= k * self.den <= 0x4000_0000_0000_0000,
            -0x7fff_ffff_ffff_ffff <= self.num - k * self.den <= 0x7fff_ffff_ffff_ffff,
        ensures
            r.num == self.num - k * self.den,
            r.den == self.den,
            r.wf(),
            r == self.spec_minus(k as int),
    {
        Frac { num: self.num - k * self.den, den: self.den }
    }

    /// The inverse `1 / self` of a positive fraction, by swapping the parts.
    pub fn inverse(self) -> (r: Frac)
        requires
            self.wf(),
            self.num >= 1,
        ensures
            r == (Frac { num: self.den, den: self.num }),
            r.wf(),
    {
        Frac { num: self.den, den: self.num }
    }

    /// Whether the fraction is a whole number.
    pub fn whole(&self) -> (r: bool)
        requires
            self.wf(),
            self.num >= 0,
        ensures
            r == self.is_whole(),
    {
        self.num % self.den == 0
    }
}

} // verus!
