//! Fixed-point scalars.
//!
//! All world-space coordinates, colors and scale factors in this crate are
//! integers counting millionths of a unit. `FP_ONE` is the value 1.0 in
//! that scale. Multiplying two such scalars therefore divides the raw
//! product by `FP_ONE`, rounding toward zero exactly as Rust's `/` does on
//! signed integers.

use vstd::prelude::*;

verus! {

/// The value 1.0 in the fixed-point scale: one million millionths.
pub const FP_ONE: i64 = 1_000_000;

/// The circle constant in the fixed-point scale.
pub const PI_FP: i64 = 3_141_593;

/// Quotient of `a` by `b` rounded toward zero, as Rust's `/` computes it
/// on signed integers. Meaningful for `b > 0`.
pub open spec fn tdiv(a: int, b: int) -> int {
    if a >= 0 {
        a / b
    } else {
        -((-a) / b)
    }
}

/// Rounding toward zero is an odd function of the dividend.
pub proof fn lemma_tdiv_odd(a: int, b: int)
    requires
        b > 0,
    ensures
        tdiv(-a, b) == -tdiv(a, b),
{
    if a == 0 {
        assert(0int / b == 0) by (nonlinear_arith)
            requires
                b > 0,
        ;
    }
}

/// Dividing an exact multiple recovers the factor.
pub proof fn lemma_tdiv_mul_cancel(k: int, b: int)
    requires
        b > 0,
    ensures
        tdiv(k * b, b) == k,
{
    if k >= 0 {
        assert(k * b >= 0) by (nonlinear_arith)
            requires
                k >= 0,
                b > 0,
        ;
        assert((k * b) / b == k) by (nonlinear_arith)
            requires
                b > 0,
        ;
    } else {
        assert(k * b < 0) by (nonlinear_arith)
            requires
                k < 0,
                b > 0,
        ;
        assert(-(k * b) == (-k) * b) by (nonlinear_arith);
        assert(((-k) * b) / b == -k) by (nonlinear_arith)
            requires
                b > 0,
        ;
    }
}

/// A product is bounded by the product of the factors' bounds.
pub proof fn lemma_mul_bound(a: int, b: int, ba: int, bb: int)
    requires
        -ba <= a <= ba,
        -bb <= b <= bb,
        0 <= ba,
        0 <= bb,
    ensures
        -(ba * bb) <= a * b <= ba * bb,
{
    assert(-(ba * bb) <= a * b <= ba * bb) by (nonlinear_arith)
        requires
            -ba <= a <= ba,
            -bb <= b <= bb,
            0 <= ba,
            0 <= bb,
    ;
}

/// The quotient is bounded by the dividend's bound when the divisor is at
/// least one.
pub proof fn lemma_tdiv_bound(a: int, b: int, ba: int)
    requires
        -ba <= a <= ba,
        0 <= ba,
        b >= 1,
    ensures
        -ba <= tdiv(a, b) <= ba,
{
    if a >= 0 {
        assert(0 <= a / b <= a) by (nonlinear_arith)
            requires
                a >= 0,
                b >= 1,
        ;
    } else {
        assert(0 <= (-a) / b <= -a) by (nonlinear_arith)
            requires
                -a >= 0,
                b >= 1,
        ;
    }
}

/// The quotient shrinks with the divisor: dividing a value bounded by
/// `ba` leaves it bounded by `ba / b`.
pub proof fn lemma_tdiv_quot_bound(a: int, b: int, ba: int)
    requires
        -ba <= a <= ba,
        0 <= ba,
        b >= 1,
    ensures
        -(ba / b) <= tdiv(a, b) <= ba / b,
{
    if a >= 0 {
        vstd::arithmetic::div_mod::lemma_div_is_ordered(a, ba, b);
        vstd::arithmetic::div_mod::lemma_div_pos_is_pos(a, b);
    } else {
        vstd::arithmetic::div_mod::lemma_div_is_ordered(-a, ba, b);
        vstd::arithmetic::div_mod::lemma_div_pos_is_pos(-a, b);
    }
}

/// Fixed-point product: `a` times `b`, both in millionths, rounded toward
/// zero. The caller keeps the raw product inside `i64`.
pub fn fp_mul(a: i64, b: i64) -> (r: i64)
    requires
        i64::MIN <= a * b <= i64::MAX,
    ensures
        r == tdiv(a * b, FP_ONE as int),
{
    (a * b) / FP_ONE
}

} // verus!
