//! Attitude estimation: static tilt from the accelerometer, rate
//! integration from the gyroscope, and the complementary filter that
//! blends them.
//!
//! Every step is a pure function over the numeric abstraction with an
//! exact specification.  The fallible variants return `None` exactly
//! when a fixed-point intermediate would leave the representable
//! range, and promise the precise scaled-integer result otherwise.

use vstd::prelude::*;

use crate::intops::trunc_div;
use crate::numeric::NumericType;

verus! {

/// Whether the squares and their sum in the tilt computation stay
/// representable.
pub open spec fn tilt_fits<T: NumericType>(ax: int, ay: int, az: int) -> bool {
    let qy = trunc_div(ay * ay, T::s_scale());
    let qz = trunc_div(az * az, T::s_scale());
    &&& T::s_min() <= qy <= T::s_max()
    &&& T::s_min() <= qz <= T::s_max()
    &&& T::s_min() <= qy + qz <= T::s_max()
}

/// Scaled pitch angle the accelerometer alone implies:
/// `atan2(ax, sqrt(ay^2 + az^2))`.
pub open spec fn tilt_pitch_spec<T: NumericType>(ax: int, ay: int, az: int) -> int {
    T::atan2_s(
        ax,
        T::sqrt_s(trunc_div(ay * ay, T::s_scale()) + trunc_div(az * az, T::s_scale())),
    )
}

/// Scaled roll angle the accelerometer alone implies: `atan2(ay, az)`.
pub open spec fn tilt_roll_spec<T: NumericType>(ay: int, az: int) -> int {
    T::atan2_s(ay, az)
}

/// Static tilt from one accelerometer reading.  Valid only while net
/// acceleration is about one g; the estimator cannot detect a
/// violation, which is a documented limitation.
pub fn tilt_from_accel<T: NumericType>(ax: T, ay: T, az: T) -> (r: Option<(T, T)>)
    ensures
        r.is_some() == tilt_fits::<T>(ax.sv(), ay.sv(), az.sv()),
        r.is_some() ==> r.unwrap().0.sv() == tilt_pitch_spec::<T>(ax.sv(), ay.sv(), az.sv()),
        r.is_some() ==> r.unwrap().1.sv() == tilt_roll_spec::<T>(ay.sv(), az.sv()),
{
    let qy = match ay.checked_mul(ay) {
        Some(v) => v,
        None => {
            return None;
        },
    };
    let qz = match az.checked_mul(az) {
        Some(v) => v,
        None => {
            return None;
        },
    };
    let s = match qy.checked_add(qz) {
        Some(v) => v,
        None => {
            return None;
        },
    };
    let pitch = T::atan2(ax, s.sqrt());
    let roll = T::atan2(ay, az);
    Some((pitch, roll))
}

/// Whether one rectangular integration step stays representable.
pub open spec fn integrate_fits<T: NumericType>(angle: int, rate: int, dt: int) -> bool {
    let d = trunc_div(rate * dt, T::s_scale());
    &&& T::s_min() <= d <= T::s_max()
    &&& T::s_min() <= angle + d <= T::s_max()
}

/// Scaled angle after one rectangular integration step:
/// `angle + rate * dt`.
pub open spec fn integrate_spec<T: NumericType>(angle: int, rate: int, dt: int) -> int {
    angle + trunc_div(rate * dt, T::s_scale())
}

/// One rectangular (Euler) integration step of a rate over `dt`
/// seconds.  First order, with drift accumulating by design.
pub fn integrate_axis<T: NumericType>(angle: T, rate: T, dt: T) -> (r: Option<T>)
    ensures
        r.is_some() == integrate_fits::<T>(angle.sv(), rate.sv(), dt.sv()),
        r.is_some() ==> r.unwrap().sv() == integrate_spec::<T>(angle.sv(), rate.sv(), dt.sv()),
{
    let d = match rate.checked_mul(dt) {
        Some(v) => v,
        None => {
            return None;
        },
    };
    angle.checked_add(d)
}

/// Whether one complementary-filter blend stays representable.
pub open spec fn fuse_fits<T: NumericType>(alpha: int, gyro_angle: int, accel_angle: int) -> bool {
    let t1 = trunc_div(alpha * gyro_angle, T::s_scale());
    let om = T::s_scale() - alpha;
    let t2 = trunc_div(om * accel_angle, T::s_scale());
    &&& T::s_min() <= t1 <= T::s_max()
    &&& T::s_min() <= om <= T::s_max()
    &&& T::s_min() <= t2 <= T::s_max()
    &&& T::s_min() <= t1 + t2 <= T::s_max()
}

/// Scaled blend of the complementary filter:
/// `alpha * gyro_angle + (1 - alpha) * accel_angle`.
pub open spec fn fuse_spec<T: NumericType>(alpha: int, gyro_angle: int, accel_angle: int) -> int {
    trunc_div(alpha * gyro_angle, T::s_scale()) + trunc_div(
        (T::s_scale() - alpha) * accel_angle,
        T::s_scale(),
    )
}

/// One complementary-filter blend of a rate-integrated angle with a
/// static accelerometer angle.  `alpha` is taken as supplied, without
/// clamping: out-of-range weights give out-of-range but well-defined
/// arithmetic, never a fault.
pub fn fuse_axis<T: NumericType>(alpha: T, gyro_angle: T, accel_angle: T) -> (r: Option<T>)
    ensures
        r.is_some() == fuse_fits::<T>(alpha.sv(), gyro_angle.sv(), accel_angle.sv()),
        r.is_some() ==> r.unwrap().sv() == fuse_spec::<T>(
            alpha.sv(),
            gyro_angle.sv(),
            accel_angle.sv(),
        ),
{
    let t1 = match alpha.checked_mul(gyro_angle) {
        Some(v) => v,
        None => {
            return None;
        },
    };
    let om = match T::one().checked_sub(alpha) {
        Some(v) => v,
        None => {
            return None;
        },
    };
    let t2 = match om.checked_mul(accel_angle) {
        Some(v) => v,
        None => {
            return None;
        },
    };
    t1.checked_add(t2)
}

/// At the ends of the weight range the blend hands back one side
/// exactly: a full weight takes the rate-integrated angle alone, a
/// zero weight the accelerometer angle alone.
pub proof fn lemma_fuse_extremes<T: NumericType>(gyro_angle: int, accel_angle: int)
    ensures
        fuse_spec::<T>(T::s_scale(), gyro_angle, accel_angle) == gyro_angle,
        fuse_spec::<T>(0, gyro_angle, accel_angle) == accel_angle,
{
    T::representation_laws();
    let scale = T::s_scale();
    crate::intops::lemma_trunc_div_exact(gyro_angle, scale);
    crate::intops::lemma_trunc_div_exact(accel_angle, scale);
    assert(scale * gyro_angle == gyro_angle * scale) by (nonlinear_arith);
    assert(scale * accel_angle == accel_angle * scale) by (nonlinear_arith);
    assert(0 * gyro_angle == 0 && 0 * accel_angle == 0) by (nonlinear_arith);
    vstd::arithmetic::div_mod::lemma_div_basics(scale);
    assert(trunc_div(0, scale) == 0);
}

/// Fusion idempotence at rest: with zero rates, pitch and roll at
/// zero, and the accelerometer reading `(0, 0, az)` for a nonnegative
/// vertical value, one whole estimator step leaves pitch and roll at
/// zero — the tilt angles are zero, the integration adds nothing, and
/// the blend of two zeros is zero — for every weight `alpha` whose
/// complement is representable and every time step `dt`.
pub proof fn lemma_rest_is_fixed_point<T: NumericType>(az: int, alpha: int, dt: int)
    requires
        0 <= az <= T::s_max(),
        trunc_div(az * az, T::s_scale()) <= T::s_max(),
        T::s_min() <= T::s_scale() - alpha <= T::s_max(),
    ensures
        integrate_fits::<T>(0, 0, dt),
        integrate_spec::<T>(0, 0, dt) == 0,
        tilt_fits::<T>(0, 0, az),
        tilt_pitch_spec::<T>(0, 0, az) == 0,
        tilt_roll_spec::<T>(0, az) == 0,
        fuse_fits::<T>(alpha, 0, 0),
        fuse_spec::<T>(alpha, 0, 0) == 0,
{
    T::representation_laws();
    let scale = T::s_scale();
    vstd::arithmetic::div_mod::lemma_div_basics(scale);
    assert(trunc_div(0, scale) == 0);
    let qz = trunc_div(az * az, scale);
    assert(az * az >= 0) by (nonlinear_arith)
        requires
            az >= 0,
    ;
    crate::intops::lemma_trunc_div_bounds(az * az, scale);
    T::sqrt_laws(qz);
    let sq = T::sqrt_s(qz);
    T::atan2_laws(0, sq);
    T::atan2_laws(0, az);
    assert(alpha * 0 == 0) by (nonlinear_arith);
    assert((scale - alpha) * 0 == 0) by (nonlinear_arith);
}

} // verus!
