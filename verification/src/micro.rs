//! Camera scalars in micro units: an `i64` counts millionths, so one unit is
//! `MICRO_ONE`. Multiplying two scalars divides the product by `MICRO_ONE`,
//! rounding toward negative infinity; every formula over them is exact.

use vstd::prelude::*;
use vstd::arithmetic::div_mod::{
    lemma_div_is_ordered, lemma_div_multiples_vanish, lemma_fundamental_div_mod,
    lemma_fundamental_div_mod_converse, lemma_div_pos_is_pos,
};

verus! {

/// One unit, in micro units.
pub const MICRO_ONE: i64 = 1_000_000;

/// Half a turn (π), in micro radians.
pub const PI_MICRO: i64 = 3_141_593;

/// A full turn (2π), in micro radians.
pub const TAU_MICRO: i64 = 2 * PI_MICRO;

/// The product of two micro-unit scalars: `(a * b) / MICRO_ONE`, rounded
/// toward negative infinity.
pub open spec fn mul_micro_spec(a: int, b: int) -> int {
    (a * b) / (MICRO_ONE as int)
}

/// Multiply two micro-unit scalars. The product, still in squared micro
/// units, must leave the quotient within `i64`.
pub fn mul_micro(a: i64, b: i64) -> (r: i64)
    requires
        -0x2000_0000_0000_0000 * (MICRO_ONE as int) <= a * b <= 0x2000_0000_0000_0000 * (
        MICRO_ONE as int),
    ensures
        r == mul_micro_spec(a as int, b as int),
        -0x2000_0000_0000_0000 <= r <= 0x2000_0000_0000_0000,
{
    proof {
        lemma_mul_micro_bound(a as int, b as int, 0x2000_0000_0000_0000);
    }
    let p = a as i128 * b as i128;
    if p >= 0 {
        let q = (p as u128) / 1_000_000;
        q as i64
    } else {
        let n = (-p) as u128;
        let q = (n + 999_999) / 1_000_000;
        proof {
            lemma_neg_div(n as int, MICRO_ONE as int);
        }
        -(q as i64)
    }
}

/// Divide a micro-unit scalar by one unit, rounding toward negative
/// infinity: micro pixels become whole pixels.
pub fn div_micro(v: i64) -> (r: i64)
    requires
        v != i64::MIN,
    ensures
        r == v as int / (MICRO_ONE as int),
        (MICRO_ONE as int) * r <= v < (MICRO_ONE as int) * (r + 1),
{
    proof {
        lemma_fundamental_div_mod(v as int, MICRO_ONE as int);
        vstd::arithmetic::div_mod::lemma_mod_bound(v as int, MICRO_ONE as int);
        assert((MICRO_ONE as int) * ((v as int / (MICRO_ONE as int)) + 1) == (MICRO_ONE as int) * (
        v as int / (MICRO_ONE as int)) + MICRO_ONE) by (nonlinear_arith);
        lemma_div_bounds_signed(v as int, MICRO_ONE as int, 0x8000_0000_0000_0000);
    }
    if v >= 0 {
        ((v as u64) / 1_000_000) as i64
    } else {
        let q = (((-v) as u64) + 999_999) / 1_000_000;
        proof {
            lemma_neg_div(-(v as int), MICRO_ONE as int);
        }
        -(q as i64)
    }
}

/// A bound on the product gives the bound on the micro-unit product:
/// `|a * b| <= bound * MICRO_ONE` yields `|mul_micro(a, b)| <= bound`.
pub proof fn lemma_mul_micro_bound(a: int, b: int, bound: int)
    requires
        0 <= bound,
        -bound * (MICRO_ONE as int) <= a * b <= bound * (MICRO_ONE as int),
    ensures
        -bound <= mul_micro_spec(a, b) <= bound,
{
    let m = MICRO_ONE as int;
    lemma_div_is_ordered(a * b, bound * m, m);
    lemma_div_is_ordered(-bound * m, a * b, m);
    lemma_div_multiples_vanish(bound, m);
    lemma_div_multiples_vanish(-bound, m);
    assert(bound * m == m * bound && -bound * m == m * -bound) by (nonlinear_arith);
}

/// The quotient of a bounded value keeps the bound.
proof fn lemma_div_bounds_signed(x: int, d: int, bound: int)
    requires
        0 < d,
        0 < bound,
        -bound <= x <= bound,
    ensures
        -bound <= x / d <= bound,
{
    if x >= 0 {
        lemma_div_pos_is_pos(x, d);
        vstd::arithmetic::div_mod::lemma_div_nonincreasing(x, d);
    } else {
        let n = -x;
        lemma_neg_div(n, d);
        let q = (n + d - 1) / d;
        lemma_div_pos_is_pos(n + d - 1, d);
        assert(n + d - 1 <= bound * d) by (nonlinear_arith)
            requires
                n <= bound,
                1 <= d,
                1 <= bound,
        ;
        lemma_div_is_ordered(n + d - 1, bound * d, d);
        lemma_div_multiples_vanish(bound, d);
        assert(bound * d == d * bound) by (nonlinear_arith);
    }
}

/// Division of a negated positive value: `(-n) / d == -((n + d - 1) / d)`.
proof fn lemma_neg_div(n: int, d: int)
    requires
        0 < n,
        0 < d,
    ensures
        (-n) / d == -((n + d - 1) / d),
{
    let q = (n + d - 1) / d;
    lemma_fundamental_div_mod(n + d - 1, d);
    let r = (n + d - 1) % d;
    assert(n + d - 1 == d * q + r);
    assert(0 <= r < d) by {
        vstd::arithmetic::div_mod::lemma_mod_bound(n + d - 1, d);
    }
    assert(-n == (-q) * d + (d * q - n)) by (nonlinear_arith)
        requires
            true,
    ;
    assert(0 <= d * q - n < d);
    lemma_fundamental_div_mod_converse(-n, d, -q, d * q - n);
}

/// An angle one conditional wrap away from `(-π, π]`, put back into it:
/// a value beyond `π` loses a turn, a value at or below `-π` gains one.
pub open spec fn wrap_once_spec(a: int) -> int {
    if a > PI_MICRO {
        a - TAU_MICRO
    } else if a <= -PI_MICRO {
        a + TAU_MICRO
    } else {
        a
    }
}

/// Wrap an angle into `(-π, π]`. One wrap suffices for any angle strictly
/// less than a full turn below `-π` and at most a full turn above `π`;
/// exactly `-π` wraps to `π`.
pub fn wrap_angle(a: i64) -> (r: i64)
    requires
        -PI_MICRO - TAU_MICRO < a <= PI_MICRO + TAU_MICRO,
    ensures
        r == wrap_once_spec(a as int),
        -PI_MICRO < r <= PI_MICRO,
{
    if a > PI_MICRO {
        a - TAU_MICRO
    } else if a <= -PI_MICRO {
        a + TAU_MICRO
    } else {
        a
    }
}

} // verus!
