//! Exact fractions of machine integers, with the two roundings the grid
//! arithmetic needs.

use vstd::prelude::*;

verus! {

/// Bound on numerator and denominator under which the operations of this
/// module cannot overflow: two to the power 124.
pub const RATIO_LIMIT: i128 = 0x1000_0000_0000_0000_0000_0000_0000_0000;

/// The fraction `num / den`.  It is not kept in lowest terms: two values
/// denote the same number when their cross products agree.
#[derive(Clone, Copy, Debug, PartialEq, Eq, Structural)]
pub struct Ratio {
    pub num: i128,
    pub den: i128,
}

/// Largest integer not above `n / d`, for a denominator of either sign.
pub open spec fn floor_quotient(n: int, d: int) -> int
    recommends
        d != 0,
{
    if d > 0 {
        n / d
    } else {
        (-n) / (-d)
    }
}

/// The integer nearest to `n / d`, a tie going away from zero.
pub open spec fn round_half_away(n: int, d: int) -> int
    recommends
        d > 0,
{
    if n >= 0 {
        (2 * n + d) / (2 * d)
    } else {
        -((2 * (-n) + d) / (2 * d))
    }
}

/// `v` limited to the indices `0 ..= count - 1`.
pub open spec fn clamp_index(v: int, count: int) -> int
    recommends
        count >= 1,
{
    if v < 0 {
        0
    } else if v > count - 1 {
        count - 1
    } else {
        v
    }
}

impl Ratio {
    /// The denominator is positive and both parts are below `RATIO_LIMIT`
    /// in magnitude.
    pub open spec fn wf(self) -> bool {
        &&& 0 < self.den < RATIO_LIMIT
        &&& -RATIO_LIMIT < self.num < RATIO_LIMIT
    }

    /// Both fractions denote the same rational number.
    pub open spec fn same_value(self, other: Ratio) -> bool {
        self.num * other.den == other.num * self.den
    }

    /// The fraction is a whole number written over one.
    pub open spec fn is_whole(self) -> bool {
        self.den == 1
    }
}

/// Floor division of `n` by a positive `d`.
pub fn floor_div(n: i128, d: i128) -> (q: i128)
    requires
        0 < d < RATIO_LIMIT,
        -RATIO_LIMIT < n < RATIO_LIMIT,
    ensures
        q == n as int / d as int,
        q == floor_quotient(n as int, d as int),
{
    if n >= 0 {
        n / d
    } else {
        let m: i128 = -n;
        let c: i128 = (m + (d - 1)) / d;
        assert(-c == n as int / d as int) by (nonlinear_arith)
            requires
                d > 0,
                m == -n,
                m > 0,
                c == (m + (d - 1)) / (d as int),
        ;
        -c
    }
}

/// Floor division of `n` by a nonzero `d` of either sign.
pub fn floor_div_signed(n: i128, d: i128) -> (q: i128)
    requires
        d != 0,
        -RATIO_LIMIT < d < RATIO_LIMIT,
        -RATIO_LIMIT < n < RATIO_LIMIT,
    ensures
        q == floor_quotient(n as int, d as int),
{
    if d > 0 {
        floor_div(n, d)
    } else {
        floor_div(-n, -d)
    }
}

/// Division of `n` by a positive `d`, rounded to the nearest integer with a
/// tie going away from zero.
pub fn round_div(n: i128, d: i128) -> (q: i128)
    requires
        0 < d < RATIO_LIMIT,
        -RATIO_LIMIT < n < RATIO_LIMIT,
    ensures
        q == round_half_away(n as int, d as int),
{
    if n >= 0 {
        (2 * n + d) / (2 * d)
    } else {
        let m: i128 = -n;
        let c: i128 = (2 * m + d) / (2 * d);
        -c
    }
}

/// `floor_quotient(n, d)` is the whole number `q` with `q <= n / d < q + 1`.
pub proof fn lemma_floor_quotient_bounds(n: int, d: int)
    requires
        d != 0,
    ensures
        d > 0 ==> floor_quotient(n, d) * d <= n < (floor_quotient(n, d) + 1) * d,
        d < 0 ==> floor_quotient(n, d) * d >= n > (floor_quotient(n, d) + 1) * d,
{
    if d > 0 {
        let q = n / d;
        vstd::arithmetic::div_mod::lemma_fundamental_div_mod(n, d);
        assert(q * d == d * q) by (nonlinear_arith);
        assert((q + 1) * d == d * q + d) by (nonlinear_arith);
    } else {
        let q = (-n) / (-d);
        vstd::arithmetic::div_mod::lemma_fundamental_div_mod(-n, -d);
        assert(q * d == -((-d) * q)) by (nonlinear_arith);
        assert((q + 1) * d == -((-d) * q) + d) by (nonlinear_arith);
    }
}

/// `round_half_away(n, d)` is a whole number nearest to `n / d`: it is no
/// further than one half from it, and where two whole numbers are that near
/// it is the one further from zero.
pub proof fn lemma_round_half_away_nearest(n: int, d: int)
    requires
        d > 0,
    ensures
        -d <= 2 * (n - round_half_away(n, d) * d) <= d,
        n >= 0 ==> 2 * (n - round_half_away(n, d) * d) < d,
        n < 0 ==> 2 * (n - round_half_away(n, d) * d) > -d,
{
    if n >= 0 {
        let q = (2 * n + d) / (2 * d);
        vstd::arithmetic::div_mod::lemma_fundamental_div_mod(2 * n + d, 2 * d);
        assert(q * d * 2 == (2 * d) * q) by (nonlinear_arith);
    } else {
        let c = (2 * (-n) + d) / (2 * d);
        vstd::arithmetic::div_mod::lemma_fundamental_div_mod(2 * (-n) + d, 2 * d);
        assert((-c) * d * 2 == -((2 * d) * c)) by (nonlinear_arith);
    }
}

/// The product of two bounded integers is bounded by the product of the
/// bounds.
pub proof fn lemma_product_bound(a: int, b: int, bound_a: int, bound_b: int)
    requires
        -bound_a <= a <= bound_a,
        -bound_b <= b <= bound_b,
    ensures
        -(bound_a * bound_b) <= a * b <= bound_a * bound_b,
{
    assert(-(bound_a * bound_b) <= a * b <= bound_a * bound_b) by (nonlinear_arith)
        requires
            -bound_a <= a <= bound_a,
            -bound_b <= b <= bound_b,
    ;
}

/// Scaling numerator and denominator by the same positive factor does not
/// change where the fraction rounds to.
pub proof fn lemma_round_scale(n: int, d: int, k: int)
    requires
        d > 0,
        k > 0,
    ensures
        round_half_away(k * n, k * d) == round_half_away(n, d),
{
    assert(k * d > 0) by (nonlinear_arith)
        requires
            k > 0,
            d > 0,
    ;
    if n >= 0 {
        assert(k * n >= 0) by (nonlinear_arith)
            requires
                k > 0,
                n >= 0,
        ;
        assert(2 * (k * n) + k * d == k * (2 * n + d)) by (nonlinear_arith);
        assert(2 * (k * d) == k * (2 * d)) by (nonlinear_arith);
        vstd::arithmetic::div_mod::lemma_div_multiples_vanish_quotient(k, 2 * n + d, 2 * d);
    } else {
        assert(k * n < 0) by (nonlinear_arith)
            requires
                k > 0,
                n < 0,
        ;
        assert(2 * (-(k * n)) + k * d == k * (2 * (-n) + d)) by (nonlinear_arith);
        assert(2 * (k * d) == k * (2 * d)) by (nonlinear_arith);
        vstd::arithmetic::div_mod::lemma_div_multiples_vanish_quotient(k, 2 * (-n) + d, 2 * d);
    }
}

} // verus!
