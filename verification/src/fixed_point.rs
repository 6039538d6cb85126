//! Fixed-point scalar: a signed 32-bit word with 16 fraction bits.
//!
//! This is the deterministic, FPU-free scalar of the crate.  A value
//! holds `bits / 65536`.  Arithmetic is exact over the scaled integers
//! with quotients rounded toward zero.

use vstd::prelude::*;

use crate::intops::{div_i64, trunc_div};
use crate::numeric::NumericType;

verus! {

/// Scaled-integer denominator: one unit is `1 / FX_ONE_BITS`.
pub const FX_ONE_BITS: i64 = 65536;

/// Pi in Q16.16 bits (`3.14159...  * 65536`, rounded toward zero).
pub const FX_PI_BITS: i32 = 205887;

/// Pi over two in Q16.16 bits.
pub const FX_HALF_PI_BITS: i32 = 102943;

/// Pi over four in Q16.16 bits.
pub const FX_QUARTER_PI_BITS: i32 = 51471;

/// Iterations Newton's method is allowed for the square root.
pub const FX_SQRT_STEPS: u32 = 10;

/// Convergence tolerance of the square root, in Q16.16 bits; about
/// `0.001` in the type's own unit.
pub const FX_SQRT_TOL_BITS: i64 = 66;

/// One Newton descent for the square root of `n / 65536` (so `n` is the
/// operand in Q16.16 bits, times 65536), starting from the iterate `x`
/// and stopping after `fuel` steps or once two iterates differ by less
/// than the tolerance.
pub open spec fn fx_sqrt_iter(n: int, x: int, fuel: nat) -> int
    decreases fuel,
{
    if fuel == 0 {
        x
    } else {
        let q = trunc_div(n, x);
        let nx = trunc_div(x + q, 2);
        if -(FX_SQRT_TOL_BITS as int) < nx - x < FX_SQRT_TOL_BITS as int {
            nx
        } else {
            fx_sqrt_iter(n, nx, (fuel - 1) as nat)
        }
    }
}

/// The Newton iterates stay positive and bounded.
pub proof fn lemma_fx_sqrt_iter_bounds(n: int, x: int, fuel: nat)
    requires
        1 <= x <= 0x8000_0000_0000,
        65536 <= n <= 0x8000_0000_0000,
    ensures
        1 <= fx_sqrt_iter(n, x, fuel) <= 0x8000_0000_0000,
    decreases fuel,
{
    if fuel > 0 {
        let q = trunc_div(n, x);
        crate::intops::lemma_trunc_div_bounds(n, x);
        let s = x + q;
        let nx = trunc_div(s, 2);
        crate::intops::lemma_trunc_div_bounds(s, 2);
        vstd::arithmetic::div_mod::lemma_div_is_ordered(s, 0x1_0000_0000_0000, 2);
        if x == 1 {
            vstd::arithmetic::div_mod::lemma_div_basics(n);
            assert(q == n);
        }
        vstd::arithmetic::div_mod::lemma_div_is_ordered(2, s, 2);
        assert(1 <= nx <= 0x8000_0000_0000);
        if !(-(FX_SQRT_TOL_BITS as int) < nx - x < FX_SQRT_TOL_BITS as int) {
            lemma_fx_sqrt_iter_bounds(n, nx, (fuel - 1) as nat);
        }
    }
}

/// Executable mirror of `fx_sqrt_iter`.
fn fx_sqrt_rec(n: i64, x: i64, fuel: u32) -> (r: i64)
    requires
        1 <= x <= 0x8000_0000_0000,
        65536 <= n <= 0x8000_0000_0000,
    ensures
        r == fx_sqrt_iter(n as int, x as int, fuel as nat),
        1 <= r <= 0x8000_0000_0000,
    decreases fuel,
{
    proof {
        lemma_fx_sqrt_iter_bounds(n as int, x as int, fuel as nat);
    }
    if fuel == 0 {
        x
    } else {
        let q: i64 = div_i64(n, x);
        proof {
            crate::intops::lemma_trunc_div_bounds(n as int, x as int);
        }
        let s: i64 = x + q;
        let nx: i64 = div_i64(s, 2);
        proof {
            crate::intops::lemma_trunc_div_bounds(s as int, 2);
            vstd::arithmetic::div_mod::lemma_div_is_ordered(s as int, 0x1_0000_0000_0000, 2);
            vstd::arithmetic::div_mod::lemma_div_is_ordered(2, s as int, 2);
            if x == 1 {
                vstd::arithmetic::div_mod::lemma_div_basics(n as int);
                assert(q == n);
            }
            assert(1 <= nx <= 0x8000_0000_0000);
        }
        let d: i64 = nx - x;
        if -FX_SQRT_TOL_BITS < d && d < FX_SQRT_TOL_BITS {
            nx
        } else {
            fx_sqrt_rec(n, nx, fuel - 1)
        }
    }
}

/// Coefficient of the arctangent correction term (`0.273 * 65536`,
/// rounded toward zero).
pub const FX_ATAN_K_BITS: i32 = 17891;

/// Ratio `num / den` in Q16.16 bits, for `0 <= num <= den`.
pub open spec fn fx_atan_ratio(num: int, den: int) -> int {
    trunc_div(num * 65536, den)
}

/// Arctangent of `z / 65536` for `z` in `[0, 65536]`, in Q16.16 bits:
/// the polynomial `(pi/4) z + 0.273 z (1 - z)`.
pub open spec fn fx_atan_poly(z: int) -> int {
    trunc_div(
        z * (FX_QUARTER_PI_BITS as int + trunc_div(FX_ATAN_K_BITS as int * (65536 - z), 65536)),
        65536,
    )
}

/// The ratio of a smaller nonnegative number to a larger positive one
/// stays within one unit.
pub proof fn lemma_fx_atan_ratio_bounds(num: int, den: int)
    requires
        0 <= num <= den,
        1 <= den,
    ensures
        0 <= fx_atan_ratio(num, den) <= 65536,
{
    crate::intops::lemma_trunc_div_bounds(num * 65536, den);
    vstd::arithmetic::div_mod::lemma_div_is_ordered(num * 65536, den * 65536, den);
    vstd::arithmetic::div_mod::lemma_div_multiples_vanish(65536, den);
}

/// The arctangent polynomial stays within a quarter turn plus its
/// correction coefficient.
pub proof fn lemma_fx_atan_poly_bounds(z: int)
    requires
        0 <= z <= 65536,
    ensures
        0 <= fx_atan_poly(z) <= FX_QUARTER_PI_BITS as int + FX_ATAN_K_BITS as int,
{
    let t = 65536 - z;
    let u = trunc_div(17891 * t, 65536);
    crate::intops::lemma_trunc_div_bounds(17891 * t, 65536);
    vstd::arithmetic::div_mod::lemma_div_is_ordered(17891 * t, 17891int * 65536, 65536);
    vstd::arithmetic::div_mod::lemma_div_multiples_vanish(17891, 65536);
    assert(0 <= u <= 17891);
    let p = z * (51471 + u);
    assert(0 <= z * (51471 + u) <= 65536int * 69362) by (nonlinear_arith)
        requires
            0 <= z <= 65536,
            0 <= 51471 + u <= 69362,
    ;
    crate::intops::lemma_trunc_div_bounds(p, 65536);
    vstd::arithmetic::div_mod::lemma_div_is_ordered(p, 65536int * 69362, 65536);
    vstd::arithmetic::div_mod::lemma_div_multiples_vanish(69362, 65536);
}

/// Two-argument arctangent on Q16.16 bit patterns: the angle of the
/// vector `(x, y)`, in radians as Q16.16 bits, in `[-pi, pi]`.  On the
/// axes it is exact by case: `0` for `y == 0, x >= 0` (including the
/// origin, by policy), `pi` for `y == 0, x < 0`, and `pi/2` of either
/// sign for `x == 0, y != 0`.
pub open spec fn fx_atan2_bits(y: int, x: int) -> int {
    if y == 0 {
        if x >= 0 {
            0
        } else {
            FX_PI_BITS as int
        }
    } else {
        let ya = if y >= 0 {
            y
        } else {
            -y
        };
        let xa = if x >= 0 {
            x
        } else {
            -x
        };
        let swapped = ya > xa;
        let num = if swapped {
            xa
        } else {
            ya
        };
        let den = if swapped {
            ya
        } else {
            xa
        };
        let a = fx_atan_poly(fx_atan_ratio(num, den));
        let m = if swapped {
            FX_HALF_PI_BITS as int - a
        } else {
            a
        };
        let mag = if x >= 0 {
            m
        } else {
            FX_PI_BITS as int - m
        };
        if y >= 0 {
            mag
        } else {
            -mag
        }
    }
}

/// On the diagonal the arctangent is exactly an eighth of a turn.
pub proof fn lemma_fx_atan2_diagonal(v: int)
    requires
        v > 0,
    ensures
        fx_atan2_bits(v, v) == FX_QUARTER_PI_BITS as int,
{
    crate::intops::lemma_trunc_div_exact(65536, v);
    assert(v * 65536 == 65536 * v) by (nonlinear_arith);
    assert(fx_atan_ratio(v, v) == 65536);
    crate::intops::lemma_trunc_div_bounds(0, 65536);
    vstd::arithmetic::div_mod::lemma_div_basics(65536);
    crate::intops::lemma_trunc_div_exact(FX_QUARTER_PI_BITS as int, 65536);
    assert(65536 * (51471 + 0) == 51471 * 65536) by (nonlinear_arith);
}

/// Away from the `y == 0` axis the arctangent is odd in `y`:
/// mirroring the vector across the `x` axis flips the angle's sign.
pub proof fn lemma_fx_atan2_odd(y: int, x: int)
    requires
        y != 0,
    ensures
        fx_atan2_bits(-y, x) == -fx_atan2_bits(y, x),
{
}

/// Executable mirror of `fx_atan2_bits`.
fn fx_atan2_core(yb: i32, xb: i32) -> (r: i64)
    ensures
        r == fx_atan2_bits(yb as int, xb as int),
        -(FX_PI_BITS as i64) <= r <= FX_PI_BITS as i64,
{
    if yb == 0 {
        if xb >= 0 {
            0
        } else {
            FX_PI_BITS as i64
        }
    } else {
        let y64: i64 = yb as i64;
        let x64: i64 = xb as i64;
        let ya: i64 = if y64 >= 0 {
            y64
        } else {
            -y64
        };
        let xa: i64 = if x64 >= 0 {
            x64
        } else {
            -x64
        };
        let swapped: bool = ya > xa;
        let num: i64 = if swapped {
            xa
        } else {
            ya
        };
        let den: i64 = if swapped {
            ya
        } else {
            xa
        };
        let z: i64 = div_i64(num * 65536, den);
        proof {
            lemma_fx_atan_ratio_bounds(num as int, den as int);
        }
        let t: i64 = 65536 - z;
        let u: i64 = div_i64((FX_ATAN_K_BITS as i64) * t, 65536);
        proof {
            crate::intops::lemma_trunc_div_bounds(17891 * (t as int), 65536);
            vstd::arithmetic::div_mod::lemma_div_is_ordered(
                17891 * (t as int),
                17891int * 65536,
                65536,
            );
            vstd::arithmetic::div_mod::lemma_div_multiples_vanish(17891, 65536);
            assert(0 <= u <= 17891);
            assert(0 <= (z as int) * (51471 + u) <= 65536 * 69362) by (nonlinear_arith)
                requires
                    0 <= z as int <= 65536,
                    0 <= 51471 + u <= 69362,
            ;
        }
        let a: i64 = div_i64(z * ((FX_QUARTER_PI_BITS as i64) + u), 65536);
        proof {
            lemma_fx_atan_poly_bounds(z as int);
        }
        let m: i64 = if swapped {
            (FX_HALF_PI_BITS as i64) - a
        } else {
            a
        };
        let mag: i64 = if xb >= 0 {
            m
        } else {
            (FX_PI_BITS as i64) - m
        };
        if yb >= 0 {
            mag
        } else {
            -mag
        }
    }
}

/// Signed fixed-point number in Q16.16 format: 16 integer bits and 16
/// fraction bits in an `i32`.
#[derive(Clone, Copy, Debug, PartialEq, Eq, Structural)]
pub struct FixedI16F16 {
    /// Raw two's-complement word; the value is `bits / 65536`.
    pub bits: i32,
}

impl FixedI16F16 {
    /// Builds the value `bits / 65536` from its raw word.
    pub fn from_bits(bits: i32) -> (r: Self)
        ensures
            r.sv() == bits as int,
    {
        FixedI16F16 { bits }
    }

    /// Raw word of this value.
    pub fn to_bits(self) -> (r: i32)
        ensures
            r as int == self.sv(),
    {
        self.bits
    }
}

impl NumericType for FixedI16F16 {
    open spec fn sv(self) -> int {
        self.bits as int
    }

    open spec fn s_scale() -> int {
        65536
    }

    open spec fn s_min() -> int {
        i32::MIN as int
    }

    open spec fn s_max() -> int {
        i32::MAX as int
    }

    open spec fn s_pi() -> int {
        FX_PI_BITS as int
    }

    open spec fn to_wide_s(v: int) -> int {
        v * 65536
    }

    open spec fn from_wide_s(w: int) -> int {
        let q = trunc_div(w, 65536);
        if q < i32::MIN as int {
            i32::MIN as int
        } else if q > i32::MAX as int {
            i32::MAX as int
        } else {
            q
        }
    }

    open spec fn sqrt_s(v: int) -> int {
        if v <= 0 {
            0
        } else {
            let r = fx_sqrt_iter(v * 65536, v, FX_SQRT_STEPS as nat);
            if r > i32::MAX as int {
                i32::MAX as int
            } else {
                r
            }
        }
    }

    open spec fn atan2_s(y: int, x: int) -> int {
        fx_atan2_bits(y, x)
    }

    proof fn representation_laws() {
    }

    proof fn value_in_range(self) {
    }

    proof fn atan2_laws(y: int, x: int) {
        if y != 0 {
            let ya = if y >= 0 {
                y
            } else {
                -y
            };
            let xa = if x >= 0 {
                x
            } else {
                -x
            };
            let swapped = ya > xa;
            let num = if swapped {
                xa
            } else {
                ya
            };
            let den = if swapped {
                ya
            } else {
                xa
            };
            lemma_fx_atan_ratio_bounds(num, den);
            lemma_fx_atan_poly_bounds(fx_atan_ratio(num, den));
        }
    }

    proof fn sqrt_laws(v: int) {
        if v > 0 {
            assert(65536 <= v * 65536 <= 0x8000_0000_0000) by (nonlinear_arith)
                requires
                    1 <= v <= 0x7FFF_FFFF,
            ;
            lemma_fx_sqrt_iter_bounds(v * 65536, v, FX_SQRT_STEPS as nat);
        }
    }

    proof fn pi_laws() {
    }

    proof fn wide_laws(v: int, w: int) {
        crate::intops::lemma_trunc_div_exact(v, 65536);
        crate::intops::lemma_trunc_div_bounds(w, 65536);
        vstd::arithmetic::div_mod::lemma_div_basics(65536);
    }

    fn zero() -> (r: Self) {
        FixedI16F16 { bits: 0 }
    }

    fn one() -> (r: Self) {
        FixedI16F16 { bits: 65536 }
    }

    fn from_raw_i16(raw: i16) -> (r: Self) {
        FixedI16F16 { bits: (raw as i32) * 65536 }
    }

    fn pi() -> (r: Self) {
        FixedI16F16 { bits: FX_PI_BITS }
    }

    fn deg_to_rad() -> (r: Self) {
        proof {
            crate::intops::lemma_trunc_div_pos_value(205887, 180, 1143, 147);
        }
        FixedI16F16 { bits: 1143 }
    }

    fn rad_to_deg() -> (r: Self) {
        proof {
            crate::intops::lemma_trunc_div_pos_value(
                180int * 65536 * 65536,
                205887,
                3754943,
                163839,
            );
        }
        FixedI16F16 { bits: 3754943 }
    }

    fn from_wide(w: i64) -> (r: Self) {
        let q: i64 = if w == i64::MIN {
            proof {
                crate::intops::lemma_trunc_div_exact(-140737488355328, 65536);
            }
            -140737488355328i64
        } else {
            div_i64(w, FX_ONE_BITS)
        };
        let bits: i32 = if q < -0x8000_0000i64 {
            i32::MIN
        } else if q > 0x7FFF_FFFFi64 {
            i32::MAX
        } else {
            q as i32
        };
        FixedI16F16 { bits }
    }

    fn to_wide(self) -> (r: i64) {
        (self.bits as i64) * 65536
    }

    fn checked_add(self, other: Self) -> (r: Option<Self>) {
        let s: i64 = self.bits as i64 + other.bits as i64;
        if -0x8000_0000i64 <= s && s <= 0x7FFF_FFFFi64 {
            Some(FixedI16F16 { bits: s as i32 })
        } else {
            None
        }
    }

    fn checked_sub(self, other: Self) -> (r: Option<Self>) {
        let s: i64 = self.bits as i64 - other.bits as i64;
        if -0x8000_0000i64 <= s && s <= 0x7FFF_FFFFi64 {
            Some(FixedI16F16 { bits: s as i32 })
        } else {
            None
        }
    }

    fn checked_mul(self, other: Self) -> (r: Option<Self>) {
        proof {
            assert((self.bits as int) * (other.bits as int) <= 0x4000_0000_0000_0000
                && (self.bits as int) * (other.bits as int) >= -0x4000_0000_0000_0000)
                by (nonlinear_arith)
                requires
                    -0x8000_0000 <= self.bits as int <= 0x7FFF_FFFF,
                    -0x8000_0000 <= other.bits as int <= 0x7FFF_FFFF,
            ;
        }
        let p: i64 = (self.bits as i64) * (other.bits as i64);
        let q: i64 = div_i64(p, FX_ONE_BITS);
        if -0x8000_0000i64 <= q && q <= 0x7FFF_FFFFi64 {
            Some(FixedI16F16 { bits: q as i32 })
        } else {
            None
        }
    }

    fn checked_div(self, other: Self) -> (r: Option<Self>) {
        if other.bits == 0 {
            None
        } else {
            let p: i64 = (self.bits as i64) * FX_ONE_BITS;
            let q: i64 = div_i64(p, other.bits as i64);
            if -0x8000_0000i64 <= q && q <= 0x7FFF_FFFFi64 {
                Some(FixedI16F16 { bits: q as i32 })
            } else {
                None
            }
        }
    }

    fn add_val(self, other: Self) -> (r: Self) {
        FixedI16F16 { bits: self.bits + other.bits }
    }

    fn sub_val(self, other: Self) -> (r: Self) {
        FixedI16F16 { bits: self.bits - other.bits }
    }

    fn mul_val(self, other: Self) -> (r: Self) {
        self.checked_mul(other).unwrap()
    }

    fn div_val(self, other: Self) -> (r: Self) {
        self.checked_div(other).unwrap()
    }

    fn neg_val(self) -> (r: Self) {
        FixedI16F16 { bits: -self.bits }
    }

    fn abs_val(self) -> (r: Self) {
        if self.bits >= 0 {
            self
        } else {
            FixedI16F16 { bits: -self.bits }
        }
    }

    fn atan2(y: Self, x: Self) -> (r: Self) {
        let r64: i64 = fx_atan2_core(y.bits, x.bits);
        FixedI16F16 { bits: r64 as i32 }
    }

    fn sqrt(self) -> (r: Self) {
        if self.bits <= 0 {
            FixedI16F16 { bits: 0 }
        } else {
            proof {
                assert(65536 <= (self.bits as int) * 65536 <= 0x8000_0000_0000)
                    by (nonlinear_arith)
                    requires
                        1 <= self.bits as int <= 0x7FFF_FFFF,
                ;
            }
            let n: i64 = (self.bits as i64) * 65536;
            let r: i64 = fx_sqrt_rec(n, self.bits as i64, FX_SQRT_STEPS);
            if r > 0x7FFF_FFFFi64 {
                FixedI16F16 { bits: i32::MAX }
            } else {
                FixedI16F16 { bits: r as i32 }
            }
        }
    }

    fn lt(self, other: Self) -> (r: bool) {
        self.bits < other.bits
    }

    fn le(self, other: Self) -> (r: bool) {
        self.bits <= other.bits
    }
}

} // verus!
