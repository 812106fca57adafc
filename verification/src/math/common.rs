//! Linear interpolation and its inverse over exact rational values.
//!
//! A continuous interpolation factor is carried as a [`Frac`], a ratio of two
//! integers, so both operations stay exact: `lerp(a, b, t)` is the rational
//! `(1-t)*a + t*b` and `lerp_inv(a, b, v)` is the rational `(v-a)/(b-a)`.
//! Extrapolation (a factor outside `[0, 1]`) is valid. `lerp_inv` is
//! undefined for `a == b` — the mathematical answer would be a division by
//! zero — so its precondition excludes that pair.

use vstd::prelude::*;

verus! {

/// Magnitude bound on the operands of [`Lerp`]; keeps every intermediate
/// product of two operands within `i64`.
pub const LERP_BOUND: i64 = 0x4000_0000;

/// An exact ratio `num / den` of two machine integers. `den` may be negative
/// but never zero for a well-formed value.
#[derive(Clone, Copy, Debug)]
pub struct Frac {
    /// Numerator.
    pub num: i64,
    /// Denominator; zero denominators are excluded by [`Frac::wf`].
    pub den: i64,
}

impl Frac {
    /// A well-formed ratio has a nonzero denominator.
    pub open spec fn wf(self) -> bool {
        self.den != 0
    }

    /// The two ratios denote the same rational number (cross multiplication).
    pub open spec fn frac_eq(self, other: Frac) -> bool {
        self.num * other.den == other.num * self.den
    }

    /// The ratio denotes exactly the integer `v`.
    pub open spec fn is_int(self, v: int) -> bool {
        self.num == v * self.den
    }

    /// Both components are small enough to take part in a [`Lerp`] call.
    pub open spec fn bounded(self) -> bool {
        -LERP_BOUND <= self.num <= LERP_BOUND && -LERP_BOUND <= self.den <= LERP_BOUND
    }
}

/// Numerator of the interpolation `(1 - t)*a + t*b` once both terms are put
/// over the common denominator `t_den`, with the factor `t = t_num / t_den`.
pub open spec fn spec_lerp_num(a: int, b: int, t_num: int, t_den: int) -> int {
    (t_den - t_num) * a + t_num * b
}

/// Linear interpolation between two values of a numeric type, and its
/// inverse, both exact over [`Frac`] factors.
pub trait Lerp: Sized {
    /// The mathematical integer this value denotes.
    spec fn as_int(self) -> int;

    /// Returns the linearly interpolated value between `self` and `other` by
    /// factor `t`, as the exact rational `(1 - t)*self + t*other`.
    fn lerp(self, other: Self, t: Frac) -> (r: Frac)
        requires
            t.wf(),
            t.bounded(),
            -LERP_BOUND <= self.as_int() <= LERP_BOUND,
            -LERP_BOUND <= other.as_int() <= LERP_BOUND,
        ensures
            r.wf(),
            r.den == t.den,
            r.num == spec_lerp_num(self.as_int(), other.as_int(), t.num as int, t.den as int),
    ;

    /// Returns the factor for the linear interpolation between `self` and
    /// `max` that would yield `amount`, as the exact rational
    /// `(amount - self) / (max - self)`. Undefined for `max == self`, where
    /// the division has no answer; that pair is excluded here.
    fn lerp_inv(self, max: Self, amount: Frac) -> (r: Frac)
        requires
            amount.wf(),
            amount.bounded(),
            -LERP_BOUND <= self.as_int() <= LERP_BOUND,
            -LERP_BOUND <= max.as_int() <= LERP_BOUND,
            max.as_int() != self.as_int(),
        ensures
            r.wf(),
            r.num == amount.num - self.as_int() * amount.den,
            r.den == (max.as_int() - self.as_int()) * amount.den,
    ;
}

impl Lerp for i64 {
    open spec fn as_int(self) -> int {
        self as int
    }

    fn lerp(self, other: i64, t: Frac) -> (r: Frac) {
        proof {
            lemma_lerp_products_bounded(self as int, other as int, t.num as int, t.den as int);
        }
        Frac { num: (t.den - t.num) * self + t.num * other, den: t.den }
    }

    fn lerp_inv(self, max: i64, amount: Frac) -> (r: Frac) {
        proof {
            lemma_lerp_products_bounded(self as int, max as int, amount.num as int, amount.den as int);
            assert((max as int - self as int) * (amount.den as int) != 0) by (nonlinear_arith)
                requires
                    max as int != self as int,
                    amount.den != 0,
            ;
        }
        Frac { num: amount.num - self * amount.den, den: (max - self) * amount.den }
    }
}

/// Every product of two operands within [`LERP_BOUND`] stays well inside
/// `i64`, as does a sum or difference of two such products.
proof fn lemma_lerp_products_bounded(a: int, b: int, n: int, d: int) by (nonlinear_arith)
    requires
        -LERP_BOUND <= a <= LERP_BOUND,
        -LERP_BOUND <= b <= LERP_BOUND,
        -LERP_BOUND <= n <= LERP_BOUND,
        -LERP_BOUND <= d <= LERP_BOUND,
    ensures
        -0x4000_0000_0000_0000 <= (d - n) * a <= 0x4000_0000_0000_0000,
        -0x2000_0000_0000_0000 <= n * b <= 0x2000_0000_0000_0000,
        -0x2000_0000_0000_0000 <= a * d <= 0x2000_0000_0000_0000,
        -0x4000_0000_0000_0000 <= (b - a) * d <= 0x4000_0000_0000_0000,
{
}

/// Law: interpolating by a factor of zero yields the start value. Any ratio
/// `r` that satisfies the `lerp` contract for a zero factor denotes exactly
/// `a`.
pub proof fn lemma_lerp_at_zero(a: i64, b: i64, t: Frac, r: Frac)
    requires
        t.wf(),
        t.num == 0,
        r.den == t.den,
        r.num == spec_lerp_num(a as int, b as int, t.num as int, t.den as int),
    ensures
        r.is_int(a as int),
{
    assert((t.den - 0) * a + 0 * b == a * t.den) by (nonlinear_arith);
}

/// Law: interpolating by a factor of one yields the end value. Any ratio
/// `r` that satisfies the `lerp` contract for a factor equal to one denotes
/// exactly `b`.
pub proof fn lemma_lerp_at_one(a: i64, b: i64, t: Frac, r: Frac)
    requires
        t.wf(),
        t.num == t.den,
        r.den == t.den,
        r.num == spec_lerp_num(a as int, b as int, t.num as int, t.den as int),
    ensures
        r.is_int(b as int),
{
    assert((t.den - t.den) * a + t.den * b == b * t.den) by (nonlinear_arith);
}

/// Law: the inverse interpolation recovers the factor. For `a != b`, when
/// `l` satisfies the `lerp(a, b, t)` contract and `r` satisfies the
/// `lerp_inv(a, b, l)` contract, `r` is well formed and denotes the same
/// rational number as `t` itself.
pub proof fn lemma_lerp_inv_round_trip(a: i64, b: i64, t: Frac, l: Frac, r: Frac)
    requires
        t.wf(),
        a != b,
        l.den == t.den,
        l.num == spec_lerp_num(a as int, b as int, t.num as int, t.den as int),
        r.num == l.num - a * l.den,
        r.den == (b - a) * l.den,
    ensures
        r.wf(),
        r.frac_eq(t),
{
    assert((b - a) * t.den != 0) by (nonlinear_arith)
        requires
            t.den != 0,
            a != b,
    ;
    assert(((t.den - t.num) * a + t.num * b - a * t.den) * t.den == t.num * ((b - a) * t.den))
        by (nonlinear_arith);
}

} // verus!
