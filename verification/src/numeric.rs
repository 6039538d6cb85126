//! Numeric abstraction: the contract a scalar type must satisfy to take
//! part in sensor math.
//!
//! Every value of an implementing type denotes the real number
//! `sv() / s_scale()`: a fixed scaling of an integer.  All arithmetic is
//! specified exactly over those scaled integers, with quotients rounded
//! toward zero (`trunc_div`).  The canonical external representation used
//! for interop is a signed 64-bit integer in units of `1 / 2^32`
//! ("wide" values); converting a scalar through it is exact for the
//! fixed-point scalar of this crate and documented as lossy in general.

use vstd::prelude::*;

use crate::intops::trunc_div;

verus! {

/// One unit of the canonical external ("wide") representation is
/// `1 / WIDE_ONE` of a physical unit.
pub const WIDE_ONE: i64 = 0x1_0000_0000;

/// Contract for scalar types used by the measurement and attitude
/// pipeline.  An implementation chooses a positive scale; a value stands
/// for `sv() / s_scale()`.  The executable operations must match the
/// specification functions exactly, so every algorithm written over this
/// trait has one precise meaning per scalar type.
pub trait NumericType: Sized + Copy {
    /// The scaled integer this value stands for.
    spec fn sv(self) -> int;

    /// Scaling denominator: a value `v` denotes `v.sv() / s_scale()`.
    spec fn s_scale() -> int;

    /// Least representable scaled integer.
    spec fn s_min() -> int;

    /// Greatest representable scaled integer.
    spec fn s_max() -> int;

    /// The scaled integer standing for the constant pi.
    spec fn s_pi() -> int;

    /// Canonical external ("wide") reading of a scaled integer, in units
    /// of `1 / WIDE_ONE`.
    spec fn to_wide_s(v: int) -> int;

    /// Scaled integer obtained from a wide value, clamped to the
    /// representable range.
    spec fn from_wide_s(w: int) -> int;

    /// Scaled integer the square root computation yields on a scaled
    /// input.  A non-positive input yields the additive identity, by
    /// policy rather than as an error.
    spec fn sqrt_s(v: int) -> int;

    /// Scaled integer the two-argument arctangent yields: the angle of
    /// the vector `(x, y)` in radians, times the scale.
    spec fn atan2_s(y: int, x: int) -> int;

    /// Basic facts about the representation that every implementation
    /// must prove: the scale is positive and the representable range
    /// covers every 16-bit raw sample.
    proof fn representation_laws()
        ensures
            Self::s_scale() >= 1,
            Self::s_min() <= -32768 * Self::s_scale(),
            Self::s_max() >= 32767 * Self::s_scale(),
    ;

    /// Every value denotes a scaled integer inside the representable
    /// range.
    proof fn value_in_range(self)
        ensures
            Self::s_min() <= self.sv() <= Self::s_max(),
    ;

    /// The constant pi is a little above three and representable along
    /// with its opposite.
    proof fn pi_laws()
        ensures
            3 * Self::s_scale() < Self::s_pi() < 4 * Self::s_scale(),
            Self::s_pi() <= Self::s_max(),
            Self::s_min() <= -Self::s_pi(),
    ;

    /// Conversion through the wide representation is exact on every
    /// representable value, always lands in range, fixes zero, and
    /// keeps signs.
    proof fn wide_laws(v: int, w: int)
        ensures
            Self::s_min() <= v <= Self::s_max() ==> Self::from_wide_s(Self::to_wide_s(v))
                == v,
            Self::s_min() <= Self::from_wide_s(w) <= Self::s_max(),
            Self::to_wide_s(0) == 0,
            Self::from_wide_s(0) == 0,
            w >= 0 ==> Self::from_wide_s(w) >= 0,
            w <= 0 ==> Self::from_wide_s(w) <= 0,
    ;

    /// The square root of a non-positive value is zero, and of a
    /// positive value is positive and representable.
    proof fn sqrt_laws(v: int)
        requires
            Self::s_min() <= v <= Self::s_max(),
        ensures
            v <= 0 ==> Self::sqrt_s(v) == 0,
            v > 0 ==> 1 <= Self::sqrt_s(v),
            0 <= Self::sqrt_s(v) <= Self::s_max(),
    ;

    /// The arctangent is total, zero on the nonnegative `x` axis
    /// (including the origin, by policy), and never leaves a half turn
    /// of either sign.
    proof fn atan2_laws(y: int, x: int)
        requires
            Self::s_min() <= y <= Self::s_max(),
            Self::s_min() <= x <= Self::s_max(),
        ensures
            y == 0 && x >= 0 ==> Self::atan2_s(y, x) == 0,
            -Self::s_pi() <= Self::atan2_s(y, x) <= Self::s_pi(),
            y >= 0 ==> 0 <= Self::atan2_s(y, x),
            y < 0 ==> Self::atan2_s(y, x) <= 0,
    ;

    /// Additive identity.
    fn zero() -> (r: Self)
        ensures
            r.sv() == 0,
    ;

    /// Multiplicative identity.
    fn one() -> (r: Self)
        ensures
            r.sv() == Self::s_scale(),
    ;

    /// Exact conversion of a raw 16-bit sensor word.
    fn from_raw_i16(raw: i16) -> (r: Self)
        ensures
            r.sv() == raw * Self::s_scale(),
    ;

    /// The constant pi.
    fn pi() -> (r: Self)
        ensures
            r.sv() == Self::s_pi(),
    ;

    /// Radians per degree, `pi / 180`, derived from the type's pi.
    fn deg_to_rad() -> (r: Self)
        ensures
            r.sv() == trunc_div(Self::s_pi(), 180),
    ;

    /// Degrees per radian, `180 / pi`, derived from the type's pi.
    fn rad_to_deg() -> (r: Self)
        ensures
            r.sv() == trunc_div(180 * Self::s_scale() * Self::s_scale(), Self::s_pi()),
    ;

    /// Conversion from the canonical wide representation, clamped to the
    /// representable range.
    fn from_wide(w: i64) -> (r: Self)
        ensures
            r.sv() == Self::from_wide_s(w as int),
    ;

    /// Exact conversion into the canonical wide representation.
    fn to_wide(self) -> (r: i64)
        ensures
            r as int == Self::to_wide_s(self.sv()),
    ;

    /// Sum, if it is representable.
    fn checked_add(self, other: Self) -> (r: Option<Self>)
        ensures
            r.is_some() <==> Self::s_min() <= self.sv() + other.sv() <= Self::s_max(),
            r.is_some() ==> r.unwrap().sv() == self.sv() + other.sv(),
    ;

    /// Difference, if it is representable.
    fn checked_sub(self, other: Self) -> (r: Option<Self>)
        ensures
            r.is_some() <==> Self::s_min() <= self.sv() - other.sv() <= Self::s_max(),
            r.is_some() ==> r.unwrap().sv() == self.sv() - other.sv(),
    ;

    /// Product rounded toward zero, if it is representable.
    fn checked_mul(self, other: Self) -> (r: Option<Self>)
        ensures
            r.is_some() <==> Self::s_min() <= trunc_div(self.sv() * other.sv(), Self::s_scale())
                <= Self::s_max(),
            r.is_some() ==> r.unwrap().sv() == trunc_div(
                self.sv() * other.sv(),
                Self::s_scale(),
            ),
    ;

    /// Quotient rounded toward zero; `None` on a zero divisor or an
    /// unrepresentable result.
    fn checked_div(self, other: Self) -> (r: Option<Self>)
        ensures
            r.is_some() <==> other.sv() != 0 && Self::s_min() <= trunc_div(
                self.sv() * Self::s_scale(),
                other.sv(),
            ) <= Self::s_max(),
            r.is_some() ==> r.unwrap().sv() == trunc_div(
                self.sv() * Self::s_scale(),
                other.sv(),
            ),
    ;

    /// Sum of two values known to stay in range.
    fn add_val(self, other: Self) -> (r: Self)
        requires
            Self::s_min() <= self.sv() + other.sv() <= Self::s_max(),
        ensures
            r.sv() == self.sv() + other.sv(),
    ;

    /// Difference of two values known to stay in range.
    fn sub_val(self, other: Self) -> (r: Self)
        requires
            Self::s_min() <= self.sv() - other.sv() <= Self::s_max(),
        ensures
            r.sv() == self.sv() - other.sv(),
    ;

    /// Product (rounded toward zero) of two values known to stay in range.
    fn mul_val(self, other: Self) -> (r: Self)
        requires
            Self::s_min() <= trunc_div(self.sv() * other.sv(), Self::s_scale())
                <= Self::s_max(),
        ensures
            r.sv() == trunc_div(self.sv() * other.sv(), Self::s_scale()),
    ;

    /// Quotient (rounded toward zero) by a nonzero divisor, known to stay
    /// in range.
    fn div_val(self, other: Self) -> (r: Self)
        requires
            other.sv() != 0,
            Self::s_min() <= trunc_div(self.sv() * Self::s_scale(), other.sv())
                <= Self::s_max(),
        ensures
            r.sv() == trunc_div(self.sv() * Self::s_scale(), other.sv()),
    ;

    /// Negation of a value whose opposite is representable.
    fn neg_val(self) -> (r: Self)
        requires
            Self::s_min() <= -self.sv() <= Self::s_max(),
        ensures
            r.sv() == -self.sv(),
    ;

    /// Absolute value, for a value whose magnitude is representable.
    fn abs_val(self) -> (r: Self)
        requires
            self.sv() >= 0 || -self.sv() <= Self::s_max(),
        ensures
            r.sv() == if self.sv() >= 0 {
                self.sv()
            } else {
                -self.sv()
            },
    ;

    /// Square root.  Exactly `sqrt_s` of the value; zero on non-positive
    /// input.
    fn sqrt(self) -> (r: Self)
        ensures
            r.sv() == Self::sqrt_s(self.sv()),
    ;

    /// Two-argument arctangent: the angle of the vector `(x, y)` in
    /// radians.  Total; exactly `atan2_s` of the two values.
    fn atan2(y: Self, x: Self) -> (r: Self)
        ensures
            r.sv() == Self::atan2_s(y.sv(), x.sv()),
    ;

    /// Strict order on the denoted values.
    fn lt(self, other: Self) -> (r: bool)
        ensures
            r == (self.sv() < other.sv()),
    ;

    /// Non-strict order on the denoted values.
    fn le(self, other: Self) -> (r: bool)
        ensures
            r == (self.sv() <= other.sv()),
    ;
}

/// Scaled integer of the radians-per-degree constant of a scalar type.
pub open spec fn deg2rad_sv<T: NumericType>() -> int {
    trunc_div(T::s_pi(), 180)
}

/// Scaled integer of the degrees-per-radian constant of a scalar type.
pub open spec fn rad2deg_sv<T: NumericType>() -> int {
    trunc_div(180 * T::s_scale() * T::s_scale(), T::s_pi())
}

/// A product with a nonnegative factor no larger than the scale stays
/// within the first factor's magnitude after rescaling.
pub proof fn lemma_small_factor_mul_in_range<T: NumericType>(v: int, f: int)
    requires
        T::s_min() <= v <= T::s_max(),
        0 <= f <= T::s_scale(),
    ensures
        v >= 0 ==> 0 <= trunc_div(v * f, T::s_scale()) <= v,
        v < 0 ==> v <= trunc_div(v * f, T::s_scale()) <= 0,
        T::s_min() <= trunc_div(v * f, T::s_scale()) <= T::s_max(),
{
    T::representation_laws();
    let scale = T::s_scale();
    if v >= 0 {
        assert(0 * scale <= v * f <= v * scale) by (nonlinear_arith)
            requires
                v >= 0,
                0 <= f <= scale,
        ;
        crate::intops::lemma_trunc_div_range(v * f, scale, 0, v);
    } else {
        assert(v * scale <= v * f <= 0 * scale) by (nonlinear_arith)
            requires
                v < 0,
                0 <= f <= scale,
                scale >= 1,
        ;
        crate::intops::lemma_trunc_div_range(v * f, scale, v, 0);
    }
}

/// Conversion helpers between raw sensor words, physical units and the
/// scalar abstraction.
pub struct NumericConverter;

impl NumericConverter {
    /// Offset-corrects a raw triple and divides each axis by a fixed
    /// divisor given in tenths, converting through the wide
    /// representation into the target scalar type.
    pub fn convert_sensor_data<T: NumericType>(
        raw: (i16, i16, i16),
        divisor_x10: u32,
        offset: (i16, i16, i16),
    ) -> (r: (T, T, T))
        requires
            divisor_x10 >= 1,
        ensures
            r.0.sv() == T::from_wide_s(
                trunc_div((raw.0 - offset.0) * 10 * (WIDE_ONE as int), divisor_x10 as int),
            ),
            r.1.sv() == T::from_wide_s(
                trunc_div((raw.1 - offset.1) * 10 * (WIDE_ONE as int), divisor_x10 as int),
            ),
            r.2.sv() == T::from_wide_s(
                trunc_div((raw.2 - offset.2) * 10 * (WIDE_ONE as int), divisor_x10 as int),
            ),
    {
        let wx: i64 = crate::intops::div_i64(
            (raw.0 as i64 - offset.0 as i64) * 10 * WIDE_ONE,
            divisor_x10 as i64,
        );
        let wy: i64 = crate::intops::div_i64(
            (raw.1 as i64 - offset.1 as i64) * 10 * WIDE_ONE,
            divisor_x10 as i64,
        );
        let wz: i64 = crate::intops::div_i64(
            (raw.2 as i64 - offset.2 as i64) * 10 * WIDE_ONE,
            divisor_x10 as i64,
        );
        (T::from_wide(wx), T::from_wide(wy), T::from_wide(wz))
    }

    /// Degrees to radians: multiplication by the type's `pi / 180`.
    /// Total, since the factor is below one.
    pub fn deg_to_rad<T: NumericType>(deg: T) -> (r: T)
        ensures
            r.sv() == trunc_div(deg.sv() * deg2rad_sv::<T>(), T::s_scale()),
    {
        let factor = T::deg_to_rad();
        proof {
            T::representation_laws();
            T::pi_laws();
            deg.value_in_range();
            crate::intops::lemma_trunc_div_bounds(T::s_pi(), 180);
            vstd::arithmetic::div_mod::lemma_div_is_ordered(T::s_pi(), 180 * T::s_scale(), 180);
            vstd::arithmetic::div_mod::lemma_div_multiples_vanish(T::s_scale(), 180);
            lemma_small_factor_mul_in_range::<T>(deg.sv(), factor.sv());
        }
        deg.mul_val(factor)
    }

    /// Radians to degrees: multiplication by the type's `180 / pi`.
    /// The caller keeps the angle small enough for the product to stay
    /// representable.
    pub fn rad_to_deg<T: NumericType>(rad: T) -> (r: T)
        requires
            T::s_min() <= trunc_div(rad.sv() * rad2deg_sv::<T>(), T::s_scale()) <= T::s_max(),
        ensures
            r.sv() == trunc_div(rad.sv() * rad2deg_sv::<T>(), T::s_scale()),
    {
        let factor = T::rad_to_deg();
        rad.mul_val(factor)
    }
}

} // verus!
