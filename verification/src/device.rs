//! Device state: configuration, calibration offsets, and the running
//! attitude estimate.
//!
//! This is the pure heart of the driver.  The bus transport around it
//! performs the exchanges and the delays; everything that decides or
//! computes — scaling, calibration bookkeeping, register bit patterns,
//! the estimator step — lives here with a contract.
//!
//! The offsets are written only by a completed calibration, never
//! partially: an interrupted calibration leaves them untouched.  The
//! attitude advances only through the estimator step, and a step that
//! cannot complete leaves the previous estimate standing.

use vstd::prelude::*;

use crate::SensorData;
use crate::attitude::{
    fuse_axis, fuse_fits, fuse_spec, integrate_axis, integrate_fits, integrate_spec,
    tilt_fits, tilt_from_accel, tilt_pitch_spec, tilt_roll_spec,
};
use crate::calibrate::CalibrationAccumulator;
use crate::config::Mpu6050Config;
use crate::config::clock::ClockSource;
use crate::intops::trunc_div;
use crate::measure::{
    accel_wide_spec, gyro_wide_spec, scale_accel_triple, scale_gyro_triple, scale_temp,
    temp_wide_spec,
};
use crate::numeric::{NumericType, rad2deg_sv};

verus! {

/// Register value that puts the device to sleep, given the current
/// power-management byte: the sleep bit is set, the rest is kept.
pub fn sleep_register_value(current: u8) -> (r: u8)
    ensures
        r == (current | 0x40u8),
{
    current | 0x40
}

/// Register value that wakes the device, given the current
/// power-management byte: the sleep bit is cleared, the rest is kept.
pub fn wake_register_value(current: u8) -> (r: u8)
    ensures
        r == (current & 0xBFu8),
{
    current & 0xBF
}

/// Register value that selects a clock source, given the current
/// power-management byte: the three clock bits are replaced, the rest
/// is kept.
pub fn clock_register_value(current: u8, source: ClockSource) -> (r: u8)
    ensures
        r == ((current & 0xF8u8) | source.reg_bits_spec()),
{
    (current & 0xF8) | source.reg_bits()
}

/// The persistent state of one device instance, apart from the bus
/// handles: the configuration, the per-axis calibration offsets, and
/// the running attitude estimate in radians.
pub struct DeviceState<T: NumericType> {
    /// The device configuration.
    pub config: Mpu6050Config,
    /// Accelerometer calibration offsets, raw counts per axis.
    pub accel_offset: (i16, i16, i16),
    /// Gyroscope calibration offsets, raw counts per axis.
    pub gyro_offset: (i16, i16, i16),
    /// Running pitch estimate, radians.
    pub pitch: T,
    /// Running roll estimate, radians.
    pub roll: T,
    /// Running yaw estimate, radians; gyroscope-integrated only, with
    /// unbounded drift by design.
    pub yaw: T,
}

impl<T: NumericType> DeviceState<T> {
    /// Scaled reading of an accelerometer triple under this state's
    /// offsets and range.
    pub open spec fn accel_sv_spec(self, raw: (i16, i16, i16)) -> (int, int, int) {
        (
            T::from_wide_s(
                accel_wide_spec(raw.0, self.accel_offset.0, self.config.accel_scale.lsb_per_g_spec()),
            ),
            T::from_wide_s(
                accel_wide_spec(raw.1, self.accel_offset.1, self.config.accel_scale.lsb_per_g_spec()),
            ),
            T::from_wide_s(
                accel_wide_spec(raw.2, self.accel_offset.2, self.config.accel_scale.lsb_per_g_spec()),
            ),
        )
    }

    /// Scaled reading of a gyroscope triple under this state's offsets
    /// and range.
    pub open spec fn gyro_sv_spec(self, raw: (i16, i16, i16)) -> (int, int, int) {
        (
            T::from_wide_s(
                gyro_wide_spec(
                    raw.0,
                    self.gyro_offset.0,
                    self.config.gyro_scale.lsb_per_dps_x10_spec(),
                ),
            ),
            T::from_wide_s(
                gyro_wide_spec(
                    raw.1,
                    self.gyro_offset.1,
                    self.config.gyro_scale.lsb_per_dps_x10_spec(),
                ),
            ),
            T::from_wide_s(
                gyro_wide_spec(
                    raw.2,
                    self.gyro_offset.2,
                    self.config.gyro_scale.lsb_per_dps_x10_spec(),
                ),
            ),
        )
    }

    /// A fresh state: the given configuration, zero offsets
    /// (uncalibrated), attitude at zero.
    pub fn new(config: Mpu6050Config) -> (r: Self)
        ensures
            r.config == config,
            r.accel_offset == (0i16, 0i16, 0i16),
            r.gyro_offset == (0i16, 0i16, 0i16),
            r.pitch.sv() == 0,
            r.roll.sv() == 0,
            r.yaw.sv() == 0,
    {
        DeviceState {
            config,
            accel_offset: (0, 0, 0),
            gyro_offset: (0, 0, 0),
            pitch: T::zero(),
            roll: T::zero(),
            yaw: T::zero(),
        }
    }

    /// A state assembled from explicit parts: configuration, offsets,
    /// and an initial attitude.
    pub fn with_attitude(
        config: Mpu6050Config,
        accel_offset: (i16, i16, i16),
        gyro_offset: (i16, i16, i16),
        pitch: T,
        roll: T,
        yaw: T,
    ) -> (r: Self)
        ensures
            r.config == config,
            r.accel_offset == accel_offset,
            r.gyro_offset == gyro_offset,
            r.pitch == pitch,
            r.roll == roll,
            r.yaw == yaw,
    {
        DeviceState { config, accel_offset, gyro_offset, pitch, roll, yaw }
    }

    /// Scales a raw accelerometer triple into metres per second
    /// squared under this state's offsets and range.
    pub fn scale_accel(&self, raw: (i16, i16, i16)) -> (r: (T, T, T))
        ensures
            (r.0.sv(), r.1.sv(), r.2.sv()) == self.accel_sv_spec(raw),
    {
        scale_accel_triple(raw, self.accel_offset, self.config.accel_scale)
    }

    /// Scales a raw gyroscope triple into radians per second under
    /// this state's offsets and range.
    pub fn scale_gyro(&self, raw: (i16, i16, i16)) -> (r: (T, T, T))
        ensures
            (r.0.sv(), r.1.sv(), r.2.sv()) == self.gyro_sv_spec(raw),
    {
        scale_gyro_triple(raw, self.gyro_offset, self.config.gyro_scale)
    }

    /// Assembles the snapshot of one acquisition cycle from the three
    /// raw readings.
    pub fn snapshot_from_raw(
        &self,
        accel_raw: (i16, i16, i16),
        gyro_raw: (i16, i16, i16),
        temp_raw: i16,
    ) -> (r: SensorData<T>)
        ensures
            (r.accel.0.sv(), r.accel.1.sv(), r.accel.2.sv()) == self.accel_sv_spec(accel_raw),
            (r.gyro.0.sv(), r.gyro.1.sv(), r.gyro.2.sv()) == self.gyro_sv_spec(gyro_raw),
            r.temp.sv() == T::from_wide_s(temp_wide_spec(temp_raw)),
    {
        SensorData {
            accel: self.scale_accel(accel_raw),
            gyro: self.scale_gyro(gyro_raw),
            temp: scale_temp(temp_raw),
        }
    }

    /// Installs the offsets of a completed gyroscope calibration: the
    /// truncated per-axis mean of the collected samples.  A run that
    /// has not reached its declared cycle count, or declared none,
    /// changes nothing — offsets update only on full completion.
    pub fn apply_gyro_calibration(&mut self, acc: &CalibrationAccumulator) -> (r: bool)
        requires
            acc.wf(),
        ensures
            r == (acc.count == acc.cycles && acc.cycles >= 1),
            r ==> final(self).gyro_offset.0 as int == acc.mean_x_spec(),
            r ==> final(self).gyro_offset.1 as int == acc.mean_y_spec(),
            r ==> final(self).gyro_offset.2 as int == acc.mean_z_spec(),
            r ==> final(self).accel_offset == old(self).accel_offset,
            r ==> final(self).config == old(self).config,
            r ==> final(self).pitch == old(self).pitch && final(self).roll == old(self).roll
                && final(self).yaw == old(self).yaw,
            !r ==> *final(self) == *old(self),
    {
        if acc.complete() && acc.cycles >= 1 {
            let m = acc.mean();
            self.gyro_offset = m;
            true
        } else {
            false
        }
    }

    /// Installs the offsets of a completed accelerometer calibration:
    /// the truncated per-axis mean, with the nominal one-g count of
    /// the configured range subtracted on the vertical axis, so that a
    /// still, level sensor reads zero net acceleration there.  Fails —
    /// and changes nothing — on an incomplete run, or when the
    /// gravity-corrected vertical mean leaves the raw 16-bit range.
    pub fn apply_accel_calibration(&mut self, acc: &CalibrationAccumulator) -> (r: bool)
        requires
            acc.wf(),
        ensures
            r == (acc.count == acc.cycles && acc.cycles >= 1 && acc.mean_z_spec() - old(
                self,
            ).config.accel_scale.lsb_per_g_spec() >= -32768),
            r ==> final(self).accel_offset.0 as int == acc.mean_x_spec(),
            r ==> final(self).accel_offset.1 as int == acc.mean_y_spec(),
            r ==> final(self).accel_offset.2 as int == acc.mean_z_spec() - old(
                self,
            ).config.accel_scale.lsb_per_g_spec(),
            r ==> final(self).gyro_offset == old(self).gyro_offset,
            r ==> final(self).config == old(self).config,
            r ==> final(self).pitch == old(self).pitch && final(self).roll == old(self).roll
                && final(self).yaw == old(self).yaw,
            !r ==> *final(self) == *old(self),
    {
        if acc.complete() && acc.cycles >= 1 {
            let m = acc.mean();
            let g: u16 = self.config.accel_scale.lsb_per_g();
            let corrected: i32 = (m.2 as i32) - (g as i32);
            if corrected >= -32768 {
                self.accel_offset = (m.0, m.1, corrected as i16);
                true
            } else {
                false
            }
        } else {
            false
        }
    }

    /// Blends accelerometer tilt with the integrated gyroscope angles:
    /// `alpha` weighs the gyroscope, its complement the accelerometer;
    /// yaw takes the integrated angle outright, since no tilt
    /// reference exists for it.
    pub fn complementary_filter(
        &mut self,
        acc_pitch: T,
        acc_roll: T,
        pitch_g: T,
        roll_g: T,
        yaw_g: T,
        alpha: T,
    )
        requires
            fuse_fits::<T>(alpha.sv(), pitch_g.sv(), acc_pitch.sv()),
            fuse_fits::<T>(alpha.sv(), roll_g.sv(), acc_roll.sv()),
        ensures
            final(self).pitch.sv() == fuse_spec::<T>(alpha.sv(), pitch_g.sv(), acc_pitch.sv()),
            final(self).roll.sv() == fuse_spec::<T>(alpha.sv(), roll_g.sv(), acc_roll.sv()),
            final(self).yaw == yaw_g,
            final(self).config == old(self).config,
            final(self).accel_offset == old(self).accel_offset,
            final(self).gyro_offset == old(self).gyro_offset,
    {
        let p = fuse_axis(alpha, pitch_g, acc_pitch);
        let r = fuse_axis(alpha, roll_g, acc_roll);
        self.pitch = p.unwrap();
        self.roll = r.unwrap();
        self.yaw = yaw_g;
    }

    /// Whether one whole estimator step stays representable from this
    /// state: the three integrations, the tilt computation, and both
    /// blends.
    pub open spec fn update_fits(
        self,
        accel_raw: (i16, i16, i16),
        gyro_raw: (i16, i16, i16),
        dt: int,
        alpha: int,
    ) -> bool {
        let a = self.accel_sv_spec(accel_raw);
        let g = self.gyro_sv_spec(gyro_raw);
        let pitch_g = integrate_spec::<T>(self.pitch.sv(), g.0, dt);
        let roll_g = integrate_spec::<T>(self.roll.sv(), g.1, dt);
        let pitch_a = tilt_pitch_spec::<T>(a.0, a.1, a.2);
        let roll_a = tilt_roll_spec::<T>(a.1, a.2);
        &&& integrate_fits::<T>(self.pitch.sv(), g.0, dt)
        &&& integrate_fits::<T>(self.roll.sv(), g.1, dt)
        &&& integrate_fits::<T>(self.yaw.sv(), g.2, dt)
        &&& tilt_fits::<T>(a.0, a.1, a.2)
        &&& fuse_fits::<T>(alpha, pitch_g, pitch_a)
        &&& fuse_fits::<T>(alpha, roll_g, roll_a)
    }

    /// Pitch after one estimator step from this state.
    pub open spec fn update_pitch_spec(
        self,
        accel_raw: (i16, i16, i16),
        gyro_raw: (i16, i16, i16),
        dt: int,
        alpha: int,
    ) -> int {
        let a = self.accel_sv_spec(accel_raw);
        let g = self.gyro_sv_spec(gyro_raw);
        fuse_spec::<T>(
            alpha,
            integrate_spec::<T>(self.pitch.sv(), g.0, dt),
            tilt_pitch_spec::<T>(a.0, a.1, a.2),
        )
    }

    /// Roll after one estimator step from this state.
    pub open spec fn update_roll_spec(
        self,
        accel_raw: (i16, i16, i16),
        gyro_raw: (i16, i16, i16),
        dt: int,
        alpha: int,
    ) -> int {
        let a = self.accel_sv_spec(accel_raw);
        let g = self.gyro_sv_spec(gyro_raw);
        fuse_spec::<T>(
            alpha,
            integrate_spec::<T>(self.roll.sv(), g.1, dt),
            tilt_roll_spec::<T>(a.1, a.2),
        )
    }

    /// Yaw after one estimator step from this state: integration only.
    pub open spec fn update_yaw_spec(
        self,
        gyro_raw: (i16, i16, i16),
        dt: int,
    ) -> int {
        let g = self.gyro_sv_spec(gyro_raw);
        integrate_spec::<T>(self.yaw.sv(), g.2, dt)
    }

    /// One whole estimator step from raw readings: scale both triples,
    /// integrate the gyroscope rates, compute the accelerometer tilt,
    /// and blend — in that order, committing the new attitude only
    /// when every intermediate stays representable.  A step that
    /// cannot complete leaves the state exactly as it was.
    pub fn update(
        &mut self,
        accel_raw: (i16, i16, i16),
        gyro_raw: (i16, i16, i16),
        dt: T,
        alpha: T,
    ) -> (r: bool)
        ensures
            r == old(self).update_fits(accel_raw, gyro_raw, dt.sv(), alpha.sv()),
            r ==> final(self).pitch.sv() == old(self).update_pitch_spec(
                accel_raw,
                gyro_raw,
                dt.sv(),
                alpha.sv(),
            ),
            r ==> final(self).roll.sv() == old(self).update_roll_spec(
                accel_raw,
                gyro_raw,
                dt.sv(),
                alpha.sv(),
            ),
            r ==> final(self).yaw.sv() == old(self).update_yaw_spec(gyro_raw, dt.sv()),
            final(self).config == old(self).config,
            final(self).accel_offset == old(self).accel_offset,
            final(self).gyro_offset == old(self).gyro_offset,
            !r ==> *final(self) == *old(self),
    {
        let (ax, ay, az) = self.scale_accel(accel_raw);
        let (gx, gy, gz) = self.scale_gyro(gyro_raw);
        let pitch_g = match integrate_axis(self.pitch, gx, dt) {
            Some(v) => v,
            None => {
                return false;
            },
        };
        let roll_g = match integrate_axis(self.roll, gy, dt) {
            Some(v) => v,
            None => {
                return false;
            },
        };
        let yaw_g = match integrate_axis(self.yaw, gz, dt) {
            Some(v) => v,
            None => {
                return false;
            },
        };
        let (pitch_a, roll_a) = match tilt_from_accel(ax, ay, az) {
            Some(v) => v,
            None => {
                return false;
            },
        };
        let new_pitch = match fuse_axis(alpha, pitch_g, pitch_a) {
            Some(v) => v,
            None => {
                return false;
            },
        };
        let new_roll = match fuse_axis(alpha, roll_g, roll_a) {
            Some(v) => v,
            None => {
                return false;
            },
        };
        self.pitch = new_pitch;
        self.roll = new_roll;
        self.yaw = yaw_g;
        true
    }

    /// Fusion idempotence at rest, at the estimator's interface: from
    /// a level attitude (pitch and roll at zero), an accelerometer
    /// reading of exactly `(0, 0, g)` for a nonnegative vertical
    /// count, zero gyroscope counts, and zero offsets, one whole
    /// `update` step is defined and leaves pitch and roll at zero —
    /// for every weight `alpha` whose complement is representable and
    /// every time step `dt`.  Repetition follows: the step maps the
    /// level state back to itself.
    pub proof fn lemma_update_rest_preserves_level(
        self,
        g_raw: i16,
        dt: int,
        alpha: int,
    )
        requires
            self.pitch.sv() == 0,
            self.roll.sv() == 0,
            self.accel_offset == (0i16, 0i16, 0i16),
            self.gyro_offset == (0i16, 0i16, 0i16),
            g_raw >= 0,
            trunc_div(
                self.accel_sv_spec((0i16, 0i16, g_raw)).2 * self.accel_sv_spec(
                    (0i16, 0i16, g_raw),
                ).2,
                T::s_scale(),
            ) <= T::s_max(),
            T::s_min() <= T::s_scale() - alpha <= T::s_max(),
        ensures
            self.update_fits((0i16, 0i16, g_raw), (0i16, 0i16, 0i16), dt, alpha),
            self.update_pitch_spec((0i16, 0i16, g_raw), (0i16, 0i16, 0i16), dt, alpha) == 0,
            self.update_roll_spec((0i16, 0i16, g_raw), (0i16, 0i16, 0i16), dt, alpha) == 0,
            self.update_yaw_spec((0i16, 0i16, 0i16), dt) == self.yaw.sv(),
    {
        T::representation_laws();
        let scale = T::s_scale();
        let lsb_a = self.config.accel_scale.lsb_per_g_spec();
        let lsb_g = self.config.gyro_scale.lsb_per_dps_x10_spec();
        vstd::arithmetic::div_mod::lemma_div_basics(100 * lsb_a as int);
        vstd::arithmetic::div_mod::lemma_div_basics(180 * lsb_g as int);
        assert(accel_wide_spec(0, 0, lsb_a) == 0);
        assert(gyro_wide_spec(0, 0, lsb_g) == 0);
        T::wide_laws(0, 0);
        assert(self.gyro_sv_spec((0i16, 0i16, 0i16)).2 == 0);
        let aw = accel_wide_spec(g_raw, 0, lsb_a);
        crate::intops::lemma_trunc_div_bounds(g_raw * 981 * 0x1_0000_0000, 100 * lsb_a as int);
        T::wide_laws(0, aw);
        let az = self.accel_sv_spec((0i16, 0i16, g_raw)).2;
        crate::attitude::lemma_rest_is_fixed_point::<T>(az, alpha, dt);
        self.yaw.value_in_range();
        assert(0 * dt == 0) by (nonlinear_arith);
        vstd::arithmetic::div_mod::lemma_div_basics(scale);
        assert(trunc_div(0, scale) == 0);
    }

    /// Whether the degree conversion of all three angles stays
    /// representable.
    pub open spec fn euler_fits(self) -> bool {
        &&& T::s_min() <= trunc_div(self.pitch.sv() * rad2deg_sv::<T>(), T::s_scale())
            <= T::s_max()
        &&& T::s_min() <= trunc_div(self.roll.sv() * rad2deg_sv::<T>(), T::s_scale())
            <= T::s_max()
        &&& T::s_min() <= trunc_div(self.yaw.sv() * rad2deg_sv::<T>(), T::s_scale())
            <= T::s_max()
    }

    /// The attitude in degrees, without mutating the state.
    pub fn get_euler_angles(&self) -> (r: (T, T, T))
        requires
            self.euler_fits(),
        ensures
            r.0.sv() == trunc_div(self.pitch.sv() * rad2deg_sv::<T>(), T::s_scale()),
            r.1.sv() == trunc_div(self.roll.sv() * rad2deg_sv::<T>(), T::s_scale()),
            r.2.sv() == trunc_div(self.yaw.sv() * rad2deg_sv::<T>(), T::s_scale()),
    {
        let factor = T::rad_to_deg();
        (self.pitch.mul_val(factor), self.roll.mul_val(factor), self.yaw.mul_val(factor))
    }

    /// The attitude in degrees, or `None` when a conversion would
    /// leave the representable range; the state is never mutated.
    pub fn try_get_euler_angles(&self) -> (r: Option<(T, T, T)>)
        ensures
            r.is_some() == self.euler_fits(),
            r.is_some() ==> r.unwrap().0.sv() == trunc_div(
                self.pitch.sv() * rad2deg_sv::<T>(),
                T::s_scale(),
            ),
            r.is_some() ==> r.unwrap().1.sv() == trunc_div(
                self.roll.sv() * rad2deg_sv::<T>(),
                T::s_scale(),
            ),
            r.is_some() ==> r.unwrap().2.sv() == trunc_div(
                self.yaw.sv() * rad2deg_sv::<T>(),
                T::s_scale(),
            ),
    {
        let factor = T::rad_to_deg();
        let p = match self.pitch.checked_mul(factor) {
            Some(v) => v,
            None => {
                return None;
            },
        };
        let r = match self.roll.checked_mul(factor) {
            Some(v) => v,
            None => {
                return None;
            },
        };
        let y = match self.yaw.checked_mul(factor) {
            Some(v) => v,
            None => {
                return None;
            },
        };
        Some((p, r, y))
    }
}

} // verus!
