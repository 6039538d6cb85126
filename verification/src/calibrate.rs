//! Calibration engine: per-axis static offsets from averaged raw
//! samples.
//!
//! The accumulator collects a declared number of raw axis triples in
//! wide signed sums, so that even the longest calibration over raw
//! values at the 16-bit extremes cannot overflow.  The mean is taken by
//! integer division truncating toward zero, and offsets are handed out
//! only once the full cycle count has been collected: an interrupted
//! calibration never yields offsets, so the previous ones stay in
//! force.
//!
//! The engine cannot tell whether the sensor was actually at rest in
//! its reference orientation; a caller violating that precondition gets
//! a silently corrupted offset, which is a documented hazard rather
//! than a reported error.

use vstd::prelude::*;

use crate::intops::trunc_div;

verus! {

/// Sum of a sequence of integers.
pub open spec fn sum_seq(s: Seq<int>) -> int
    decreases s.len(),
{
    if s.len() == 0 {
        0
    } else {
        sum_seq(s.drop_last()) + s.last()
    }
}

/// First components of a sequence of axis triples.
pub open spec fn xs_of(s: Seq<(i16, i16, i16)>) -> Seq<int> {
    s.map_values(|t: (i16, i16, i16)| t.0 as int)
}

/// Second components of a sequence of axis triples.
pub open spec fn ys_of(s: Seq<(i16, i16, i16)>) -> Seq<int> {
    s.map_values(|t: (i16, i16, i16)| t.1 as int)
}

/// Third components of a sequence of axis triples.
pub open spec fn zs_of(s: Seq<(i16, i16, i16)>) -> Seq<int> {
    s.map_values(|t: (i16, i16, i16)| t.2 as int)
}

/// Appending to a sequence adds its last element to the sum.
pub proof fn lemma_sum_seq_push(s: Seq<int>, v: int)
    ensures
        sum_seq(s.push(v)) == sum_seq(s) + v,
{
    assert(s.push(v).drop_last() =~= s);
}

/// The sum of a constant sequence is the element times the length.
pub proof fn lemma_sum_seq_constant(s: Seq<int>, v: int)
    requires
        forall|i: int| 0 <= i < s.len() ==> s[i] == v,
    ensures
        sum_seq(s) == s.len() * v,
    decreases s.len(),
{
    if s.len() == 0 {
    } else {
        lemma_sum_seq_constant(s.drop_last(), v);
        assert((s.len() - 1) * v + v == s.len() * v) by (nonlinear_arith);
    }
}

/// Accumulator of one calibration run: wide per-axis sums of the raw
/// samples seen so far, against a declared cycle count.
pub struct CalibrationAccumulator {
    /// Sum of the raw X samples.
    pub sum_x: i32,
    /// Sum of the raw Y samples.
    pub sum_y: i32,
    /// Sum of the raw Z samples.
    pub sum_z: i32,
    /// Samples collected so far.
    pub count: u16,
    /// Samples the calibration is declared to need.
    pub cycles: u16,
    /// The samples themselves, kept for specification only.
    pub samples: Ghost<Seq<(i16, i16, i16)>>,
}

impl CalibrationAccumulator {
    /// Well-formedness: the sums are exactly the sums of the recorded
    /// samples, the count matches, never beyond the declared cycles,
    /// and each sum stays within the 16-bit extremes times the count,
    /// which keeps it far from the 32-bit range even at 65535 cycles.
    pub open spec fn wf(self) -> bool {
        &&& self.count <= self.cycles
        &&& self.samples@.len() == self.count
        &&& self.sum_x == sum_seq(xs_of(self.samples@))
        &&& self.sum_y == sum_seq(ys_of(self.samples@))
        &&& self.sum_z == sum_seq(zs_of(self.samples@))
        &&& -32768 * (self.count as int) <= self.sum_x <= 32767 * (self.count as int)
        &&& -32768 * (self.count as int) <= self.sum_y <= 32767 * (self.count as int)
        &&& -32768 * (self.count as int) <= self.sum_z <= 32767 * (self.count as int)
    }

    /// Truncated mean of the X sums over the declared cycles.
    pub open spec fn mean_x_spec(self) -> int {
        trunc_div(self.sum_x as int, self.cycles as int)
    }

    /// Truncated mean of the Y sums over the declared cycles.
    pub open spec fn mean_y_spec(self) -> int {
        trunc_div(self.sum_y as int, self.cycles as int)
    }

    /// Truncated mean of the Z sums over the declared cycles.
    pub open spec fn mean_z_spec(self) -> int {
        trunc_div(self.sum_z as int, self.cycles as int)
    }

    /// A fresh accumulator for a calibration of `cycles` samples.
    pub fn new(cycles: u16) -> (r: Self)
        ensures
            r.wf(),
            r.cycles == cycles,
            r.count == 0,
            r.samples@ =~= Seq::<(i16, i16, i16)>::empty(),
    {
        CalibrationAccumulator {
            sum_x: 0,
            sum_y: 0,
            sum_z: 0,
            count: 0,
            cycles,
            samples: Ghost(Seq::empty()),
        }
    }

    /// Whether the declared cycle count has been collected in full.
    pub fn complete(&self) -> (r: bool)
        ensures
            r == (self.count == self.cycles),
    {
        self.count == self.cycles
    }

    /// Folds one raw sample into the sums.  Verified free of overflow
    /// for every possible sample, up to the largest cycle count.
    pub fn add_sample(&mut self, x: i16, y: i16, z: i16)
        requires
            old(self).wf(),
            old(self).count < old(self).cycles,
        ensures
            final(self).wf(),
            final(self).cycles == old(self).cycles,
            final(self).count == old(self).count + 1,
            final(self).samples@ =~= old(self).samples@.push((x, y, z)),
            final(self).sum_x == old(self).sum_x + x,
            final(self).sum_y == old(self).sum_y + y,
            final(self).sum_z == old(self).sum_z + z,
    {
        proof {
            lemma_sum_seq_push(xs_of(self.samples@), x as int);
            lemma_sum_seq_push(ys_of(self.samples@), y as int);
            lemma_sum_seq_push(zs_of(self.samples@), z as int);
            assert(xs_of(self.samples@.push((x, y, z))) =~= xs_of(self.samples@).push(
                x as int,
            ));
            assert(ys_of(self.samples@.push((x, y, z))) =~= ys_of(self.samples@).push(
                y as int,
            ));
            assert(zs_of(self.samples@.push((x, y, z))) =~= zs_of(self.samples@).push(
                z as int,
            ));
        }
        self.sum_x = self.sum_x + (x as i32);
        self.sum_y = self.sum_y + (y as i32);
        self.sum_z = self.sum_z + (z as i32);
        self.count = self.count + 1;
        self.samples = Ghost(self.samples@.push((x, y, z)));
    }

    /// Truncated per-axis mean of a completed run.  Always within the
    /// 16-bit range, since every sample was.
    pub fn mean(&self) -> (r: (i16, i16, i16))
        requires
            self.wf(),
            self.count == self.cycles,
            self.cycles >= 1,
        ensures
            r.0 as int == self.mean_x_spec(),
            r.1 as int == self.mean_y_spec(),
            r.2 as int == self.mean_z_spec(),
    {
        proof {
            crate::intops::lemma_trunc_div_range(
                self.sum_x as int,
                self.cycles as int,
                -32768,
                32767,
            );
            crate::intops::lemma_trunc_div_range(
                self.sum_y as int,
                self.cycles as int,
                -32768,
                32767,
            );
            crate::intops::lemma_trunc_div_range(
                self.sum_z as int,
                self.cycles as int,
                -32768,
                32767,
            );
        }
        let mx: i64 = crate::intops::div_i64(self.sum_x as i64, self.cycles as i64);
        let my: i64 = crate::intops::div_i64(self.sum_y as i64, self.cycles as i64);
        let mz: i64 = crate::intops::div_i64(self.sum_z as i64, self.cycles as i64);
        (mx as i16, my as i16, mz as i16)
    }
}

/// Calibration determinism: a complete run that saw the same raw
/// sample `(x, y, z)` in every cycle has exactly `(x, y, z)` as its
/// per-axis mean, for any cycle count of at least one.  The gyroscope
/// offset is this mean itself; the accelerometer offset subtracts the
/// nominal gravity count from the vertical axis afterwards.
pub proof fn lemma_constant_stream_mean(acc: CalibrationAccumulator, x: i16, y: i16, z: i16)
    requires
        acc.wf(),
        acc.count == acc.cycles,
        acc.cycles >= 1,
        forall|i: int| 0 <= i < acc.samples@.len() ==> acc.samples@[i] == (x, y, z),
    ensures
        acc.mean_x_spec() == x,
        acc.mean_y_spec() == y,
        acc.mean_z_spec() == z,
{
    assert forall|i: int| 0 <= i < xs_of(acc.samples@).len() implies xs_of(acc.samples@)[i]
        == x as int by {
        assert(acc.samples@[i] == (x, y, z));
    }
    assert forall|i: int| 0 <= i < ys_of(acc.samples@).len() implies ys_of(acc.samples@)[i]
        == y as int by {
        assert(acc.samples@[i] == (x, y, z));
    }
    assert forall|i: int| 0 <= i < zs_of(acc.samples@).len() implies zs_of(acc.samples@)[i]
        == z as int by {
        assert(acc.samples@[i] == (x, y, z));
    }
    lemma_sum_seq_constant(xs_of(acc.samples@), x as int);
    lemma_sum_seq_constant(ys_of(acc.samples@), y as int);
    lemma_sum_seq_constant(zs_of(acc.samples@), z as int);
    crate::intops::lemma_trunc_div_exact(x as int, acc.cycles as int);
    crate::intops::lemma_trunc_div_exact(y as int, acc.cycles as int);
    crate::intops::lemma_trunc_div_exact(z as int, acc.cycles as int);
}

/// Accumulator overflow safety: however the accumulator was filled, as
/// long as it is well formed its sums lie strictly inside the 32-bit
/// range, even after 65535 cycles of samples at the 16-bit extremes.
pub proof fn lemma_accumulator_overflow_safe(acc: CalibrationAccumulator)
    requires
        acc.wf(),
    ensures
        -0x8000_0000 < acc.sum_x < 0x7FFF_FFFF,
        -0x8000_0000 < acc.sum_y < 0x7FFF_FFFF,
        -0x8000_0000 < acc.sum_z < 0x7FFF_FFFF,
{
}

} // verus!
