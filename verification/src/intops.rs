//! Truncating integer division for signed machine words.
//!
//! The scalar arithmetic of this crate rounds quotients toward zero, the
//! way hardware fixed-point units do.  Specification-level `/` on `int` is
//! Euclidean, so the truncating quotient is defined here once, together
//! with an executable form on `i64`.

use vstd::prelude::*;

verus! {

/// Quotient of `a` by `b`, rounded toward zero.
pub open spec fn trunc_div(a: int, b: int) -> int {
    if a >= 0 {
        if b > 0 {
            a / b
        } else {
            -(a / -b)
        }
    } else {
        if b > 0 {
            -((-a) / b)
        } else {
            (-a) / (-b)
        }
    }
}

/// A truncating quotient of an exact multiple recovers the factor.
pub proof fn lemma_trunc_div_exact(v: int, c: int)
    requires
        c > 0,
    ensures
        trunc_div(v * c, c) == v,
{
    if v >= 0 {
        assert(v * c >= 0 && v * c == c * v) by (nonlinear_arith)
            requires
                v >= 0,
                c > 0,
        ;
        vstd::arithmetic::div_mod::lemma_div_multiples_vanish(v, c);
    } else {
        assert(v * c < 0 && -(v * c) == c * -v) by (nonlinear_arith)
            requires
                v < 0,
                c > 0,
        ;
        vstd::arithmetic::div_mod::lemma_div_multiples_vanish(-v, c);
    }
}

/// Certificate form of a nonnegative truncating quotient: exhibiting the
/// remainder pins the quotient down.
pub proof fn lemma_trunc_div_pos_value(a: int, b: int, q: int, r: int)
    requires
        a >= 0,
        b > 0,
        a == b * q + r,
        0 <= r < b,
    ensures
        trunc_div(a, b) == q,
{
    assert(a == q * b + r) by (nonlinear_arith)
        requires
            a == b * q + r,
    ;
    vstd::arithmetic::div_mod::lemma_fundamental_div_mod_converse(a, b, q, r);
}

/// A truncating quotient never exceeds the dividend in magnitude and
/// keeps its sign.
pub proof fn lemma_trunc_div_bounds(a: int, b: int)
    requires
        b >= 1,
    ensures
        a >= 0 ==> 0 <= trunc_div(a, b) <= a,
        a < 0 ==> a <= trunc_div(a, b) <= 0,
{
    if a >= 0 {
        vstd::arithmetic::div_mod::lemma_div_pos_is_pos(a, b);
        vstd::arithmetic::div_mod::lemma_div_nonincreasing(a, b);
    } else {
        vstd::arithmetic::div_mod::lemma_div_pos_is_pos(-a, b);
        vstd::arithmetic::div_mod::lemma_div_nonincreasing(-a, b);
    }
}

/// A truncating quotient lies between the bounds whose multiples
/// enclose the dividend.
pub proof fn lemma_trunc_div_range(a: int, b: int, lo: int, hi: int)
    requires
        b >= 1,
        lo <= 0,
        hi >= 0,
        lo * b <= a <= hi * b,
    ensures
        lo <= trunc_div(a, b) <= hi,
{
    if a >= 0 {
        vstd::arithmetic::div_mod::lemma_div_pos_is_pos(a, b);
        vstd::arithmetic::div_mod::lemma_div_is_ordered(a, hi * b, b);
        vstd::arithmetic::div_mod::lemma_div_multiples_vanish(hi, b);
        assert(hi * b == b * hi) by (nonlinear_arith);
    } else {
        assert(-a <= (-lo) * b) by (nonlinear_arith)
            requires
                lo * b <= a,
        ;
        vstd::arithmetic::div_mod::lemma_div_pos_is_pos(-a, b);
        vstd::arithmetic::div_mod::lemma_div_is_ordered(-a, (-lo) * b, b);
        vstd::arithmetic::div_mod::lemma_div_multiples_vanish(-lo, b);
        assert((-lo) * b == b * (-lo)) by (nonlinear_arith);
    }
}

/// Truncating division on `i64`, matching `trunc_div` on the values.
pub fn div_i64(a: i64, b: i64) -> (r: i64)
    requires
        b != 0,
        i64::MIN < a,
        i64::MIN < b,
    ensures
        r == trunc_div(a as int, b as int),
{
    let neg: bool = (a < 0) != (b < 0);
    let am: u64 = if a >= 0 { a as u64 } else { (-a) as u64 };
    let bm: u64 = if b >= 0 { b as u64 } else { (-b) as u64 };
    let q: u64 = am / bm;
    if neg {
        -(q as i64)
    } else {
        q as i64
    }
}

} // verus!
