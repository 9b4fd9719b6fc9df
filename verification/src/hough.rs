//! Estimating the solar azimuth with a one-dimensional Hough transform:
//! rays near the orthogonal polarization band vote for the angle of
//! their own position, and the fullest bin wins.

use crate::angle::wrap_aop;
use crate::ray::{offset_angle, Ray, SensorFrame};
use crate::sensor::SensorCoordinate;
use crate::trig::{atan2_spec, atan2_ud};
use vstd::prelude::*;

verus! {

/// One vote cast into a row of bins: out-of-range votes are discarded,
/// and a full bin stays full.
pub open spec fn vote_spec(counts: Seq<u32>, idx: int) -> Seq<u32> {
    if 0 <= idx < counts.len() {
        if counts[idx] < 0xffff_ffff {
            counts.update(idx, (counts[idx] + 1) as u32)
        } else {
            counts
        }
    } else {
        counts
    }
}

/// Whether `v` is the value at the lower edge of the last fullest bin
/// of a row of counts over a range starting at `start` with bins of
/// width `res`.
pub open spec fn is_last_fullest_value(counts: Seq<u32>, start: int, res: int, v: int) -> bool {
    exists|i: int|
        0 <= i < counts.len() && v == start + i * res && (forall|j: int|
            0 <= j < counts.len() ==> counts[j] <= #[trigger] counts[i]) && (forall|j: int|
            i < j < counts.len() ==> counts[j] < counts[i])
}

/// Accumulates votes over a range of values split into equal bins.
pub struct Accumulator {
    resolution_ud: i64,
    start_ud: i64,
    buffer: Vec<u32>,
}

impl Accumulator {
    /// The bin width in microdegrees.
    pub closed spec fn resolution_spec(&self) -> int {
        self.resolution_ud as int
    }

    /// The start of the covered range in microdegrees.
    pub closed spec fn start_spec(&self) -> int {
        self.start_ud as int
    }

    /// The per-bin vote counts.
    pub closed spec fn counts_spec(&self) -> Seq<u32> {
        self.buffer@
    }

    /// The bin width is positive, the range endpoints are modest
    /// angles, and the bin count fits a 32-bit index.
    pub open spec fn wf(&self) -> bool {
        0 < self.resolution_spec() <= 2_000_000_000 && -1_000_000_000 <= self.start_spec()
            <= 1_000_000_000 && self.counts_spec().len() <= 4_294_967_295
    }

    /// The bin a value falls into, counted from the range start.
    pub open spec fn index_of_value(&self, v: int) -> int {
        (v - self.start_spec()) / self.resolution_spec()
    }

    /// The value at the lower edge of a bin.
    pub open spec fn value_of_index(&self, i: int) -> int {
        self.start_spec() + i * self.resolution_spec()
    }

    /// Creates an accumulator over `[start_ud, end_ud]` with bins of
    /// `resolution_ud`, all empty; the last partial bin is dropped, as
    /// the bin count is the floor of the range over the resolution.
    pub fn new(resolution_ud: i64, start_ud: i64, end_ud: i64) -> (r: Self)
        requires
            0 < resolution_ud <= 2_000_000_000,
            -1_000_000_000 <= start_ud < end_ud <= 1_000_000_000,
        ensures
            r.wf(),
            r.resolution_spec() == resolution_ud,
            r.start_spec() == start_ud,
            r.counts_spec().len() == ((end_ud - start_ud) as int) / (resolution_ud as int),
            forall|i: int| 0 <= i < r.counts_spec().len() ==> r.counts_spec()[i] == 0,
    {
        proof {
            vstd::arithmetic::div_mod::lemma_div_pos_is_pos(
                end_ud - start_ud,
                resolution_ud as int,
            );
            vstd::arithmetic::div_mod::lemma_div_is_ordered_by_denominator(
                end_ud - start_ud,
                1,
                resolution_ud as int,
            );
        }
        proof {
            vstd::arithmetic::div_mod::lemma_div_is_ordered(
                end_ud - start_ud,
                2_000_000_000,
                resolution_ud as int,
            );
        }
        let len: usize = (((end_ud - start_ud) as u64) / (resolution_ud as u64)) as usize;
        let mut buffer: Vec<u32> = Vec::new();
        while buffer.len() < len
            invariant
                buffer@.len() <= len,
                forall|i: int| 0 <= i < buffer@.len() ==> buffer@[i] == 0,
            decreases len - buffer.len(),
        {
            buffer.push(0);
        }
        Self { resolution_ud, start_ud, buffer }
    }

    /// Casts a vote for a value: the bin it falls into grows by one.
    /// Values outside the covered range, and bins already full, are
    /// left untouched rather than overflowing.
    pub fn vote(&mut self, value_ud: i64)
        requires
            old(self).wf(),
            -2_000_000_000 <= value_ud <= 2_000_000_000,
        ensures
            final(self).counts_spec() == vote_spec(
                old(self).counts_spec(),
                old(self).index_of_value(value_ud as int),
            ),
            final(self).resolution_spec() == old(self).resolution_spec(),
            final(self).start_spec() == old(self).start_spec(),
            final(self).wf(),
    {
        let diff: i64 = value_ud - self.start_ud;
        if diff < 0 {
            proof {
                lemma_div_neg(diff as int, self.resolution_spec());
            }
            return ;
        }
        proof {
            vstd::arithmetic::div_mod::lemma_div_pos_is_pos(diff as int, self.resolution_spec());
        }
        let idx_wide: u64 = (diff as u64) / (self.resolution_ud as u64);
        if idx_wide > 0xffff_ffff {
            return ;
        }
        let idx: usize = idx_wide as usize;
        if idx < self.buffer.len() {
            if self.buffer[idx] < 0xffff_ffff {
                let count = self.buffer[idx];
                self.buffer[idx] = count + 1;
            }
        }
    }

    /// The value at the fullest bin, taking the last such bin when
    /// several are equally full, or `None` when there are no bins.
    pub fn winner(&self) -> (r: Option<i64>)
        requires
            self.wf(),
        ensures
            r is Some <==> self.counts_spec().len() > 0,
            r matches Some(v) ==> is_last_fullest_value(
                self.counts_spec(),
                self.start_spec(),
                self.resolution_spec(),
                v as int,
            ),
    {
        if self.buffer.len() == 0 {
            return None;
        }
        let mut best: usize = 0;
        let mut k: usize = 1;
        while k < self.buffer.len()
            invariant
                self.wf(),
                best < k <= self.counts_spec().len(),
                forall|j: int| 0 <= j < k ==> self.counts_spec()[j] <= self.counts_spec()[
                    best as int
                ],
                forall|j: int|
                    best < j < k ==> self.counts_spec()[j] < self.counts_spec()[best as int],
            decreases self.counts_spec().len() - k,
        {
            if self.buffer[k] >= self.buffer[best] {
                best = k;
            }
            k = k + 1;
        }
        proof {
            assert(best as int * self.resolution_spec() <= 8_589_934_590_000_000_000)
                by (nonlinear_arith)
                requires
                    0 <= best as int <= 4_294_967_295,
                    0 < self.resolution_spec() <= 2_000_000_000,
            ;
            assert(0 <= best as int * self.resolution_spec()) by (nonlinear_arith)
                requires
                    0 <= best as int,
                    0 < self.resolution_spec(),
            ;
        }
        let v: i64 = self.start_ud + ((best as i64) as i128 * (self.resolution_ud as i128)) as i64;
        proof {
            let i0 = best as int;
            let counts = self.counts_spec();
            assert(counts[i0] >= 0);
            assert(is_last_fullest_value(
                counts,
                self.start_spec(),
                self.resolution_spec(),
                v as int,
            )) by {
                assert(0 <= i0 < counts.len());
                assert(v == self.start_spec() + i0 * self.resolution_spec());
                assert(forall|j: int| 0 <= j < counts.len() ==> counts[j] <= #[trigger] counts[i0]);
                assert(forall|j: int| i0 < j < counts.len() ==> counts[j] < counts[i0]);
            }
        }
        Some(v)
    }

    /// The value at the fullest bin, consuming the accumulator.
    pub fn into_winner(self) -> (r: Option<i64>)
        requires
            self.wf(),
        ensures
            r is Some <==> self.counts_spec().len() > 0,
            r matches Some(v) ==> is_last_fullest_value(
                self.counts_spec(),
                self.start_spec(),
                self.resolution_spec(),
                v as int,
            ),
    {
        self.winner()
    }
}

/// Euclidean division of a negative value by a positive divisor is
/// negative.
proof fn lemma_div_neg(v: int, d: int)
    requires
        v < 0,
        0 < d,
    ensures
        v / d < 0,
{
    vstd::arithmetic::div_mod::lemma_fundamental_div_mod(v, d);
    vstd::arithmetic::div_mod::lemma_mod_bound(v, d);
    if v / d >= 0 {
        vstd::arithmetic::mul::lemma_mul_nonnegative(d, v / d);
    }
}

/// The bin a globalized ray votes for: the angle of its own position,
/// wrapped into the polarization range.
pub open spec fn ray_angle_spec(x: int, y: int) -> int {
    wrap_aop(atan2_spec(y, x))
}

/// One ray's effect on the vote counts: rays whose global-frame angle
/// of polarization lies within the threshold of the orthogonal quarter
/// turn vote for the angle of their position; others abstain.
pub open spec fn hough_step(
    counts: Seq<u32>,
    ray: Ray<SensorFrame>,
    zx: int,
    zy: int,
    thres: int,
    start: int,
    res: int,
) -> Seq<u32> {
    let g_aop = wrap_aop(ray.aop_spec() - offset_angle(ray.x_spec(), ray.y_spec(), zx, zy));
    if vstd::math::abs(wrap_aop(90_000_000 - g_aop)) <= thres {
        vote_spec(counts, (ray_angle_spec(ray.x_spec(), ray.y_spec()) - start) / res)
    } else {
        counts
    }
}

/// The vote counts after the first `n` rays.
pub open spec fn hough_counts(
    base: Seq<u32>,
    rays: Seq<Ray<SensorFrame>>,
    zx: int,
    zy: int,
    thres: int,
    start: int,
    res: int,
    n: int,
) -> Seq<u32>
    decreases n,
{
    if n <= 0 {
        base
    } else {
        hough_step(
            hough_counts(base, rays, zx, zy, thres, start, res, n - 1),
            rays[n - 1],
            zx,
            zy,
            thres,
            start,
            res,
        )
    }
}

/// Estimates the azimuth of the solar meridian from a sensor-frame ray
/// stream with a one-dimensional Hough transform over the position
/// angles of the rays polarized orthogonally to their meridian.
pub struct HoughTransform {
    zenith: SensorCoordinate,
    res_ud: i64,
    thres_ud: i64,
}

impl HoughTransform {
    /// The zenith position anchoring the frame transform.
    pub closed spec fn zenith_spec(&self) -> SensorCoordinate {
        self.zenith
    }

    /// The bin resolution in microdegrees.
    pub closed spec fn res_spec(&self) -> int {
        self.res_ud as int
    }

    /// The selection threshold in microdegrees.
    pub closed spec fn thres_spec(&self) -> int {
        self.thres_ud as int
    }

    /// Resolution and threshold are in range and the zenith position is
    /// on the sensor plane.
    pub open spec fn wf(&self) -> bool {
        0 < self.res_spec() <= 180_000_000 && 0 <= self.thres_spec()
            && -2_000_000_000_000_000_000 <= self.zenith_spec().x_spec()
            <= 2_000_000_000_000_000_000 && -2_000_000_000_000_000_000
            <= self.zenith_spec().y_spec() <= 2_000_000_000_000_000_000
    }

    /// Creates an estimator voting into bins of `res_ud` microdegrees,
    /// selecting rays within `thres_ud` of the orthogonal quarter turn.
    pub fn new(zenith: SensorCoordinate, res_ud: i64, thres_ud: i64) -> (r: Self)
        requires
            0 < res_ud <= 180_000_000,
            0 <= thres_ud,
            -2_000_000_000_000_000_000 <= zenith.x_spec() <= 2_000_000_000_000_000_000,
            -2_000_000_000_000_000_000 <= zenith.y_spec() <= 2_000_000_000_000_000_000,
        ensures
            r.wf(),
            r.zenith_spec() == zenith,
            r.res_spec() == res_ud,
            r.thres_spec() == thres_ud,
    {
        Self { zenith, res_ud, thres_ud }
    }

    /// Runs the transform: every selected ray votes for the angle of
    /// its position, and the value of the fullest bin is returned.
    pub fn estimate(&self, rays: &Vec<Ray<SensorFrame>>) -> (r: Option<i64>)
        requires
            self.wf(),
            forall|i: int| 0 <= i < rays@.len() ==> (#[trigger] rays@[i]).wf(),
        ensures
            ({
                let counts = hough_counts(
                    Seq::new(((180_000_000int) / self.res_spec()) as nat, |i: int| 0u32),
                    rays@,
                    self.zenith_spec().x_spec(),
                    self.zenith_spec().y_spec(),
                    self.thres_spec(),
                    -90_000_000,
                    self.res_spec(),
                    rays@.len() as int,
                );
                &&& (r is Some <==> counts.len() > 0)
                &&& (r matches Some(v) ==> is_last_fullest_value(
                    counts,
                    -90_000_000,
                    self.res_spec(),
                    v as int,
                ))
            }),
    {
        let mut acc = Accumulator::new(self.res_ud, -90_000_000, 90_000_000);
        proof {
            assert(acc.counts_spec() =~= Seq::new(
                ((180_000_000int) / self.res_spec()) as nat,
                |i: int| 0u32,
            ));
        }
        let mut k: usize = 0;
        while k < rays.len()
            invariant
                self.wf(),
                forall|i: int| 0 <= i < rays@.len() ==> (#[trigger] rays@[i]).wf(),
                k <= rays@.len(),
                acc.wf(),
                acc.resolution_spec() == self.res_spec(),
                acc.start_spec() == -90_000_000,
                acc.counts_spec() == hough_counts(
                    Seq::new(((180_000_000int) / self.res_spec()) as nat, |i: int| 0u32),
                    rays@,
                    self.zenith_spec().x_spec(),
                    self.zenith_spec().y_spec(),
                    self.thres_spec(),
                    -90_000_000,
                    self.res_spec(),
                    k as int,
                ),
                acc.counts_spec().len() == (180_000_000int) / self.res_spec(),
            decreases rays@.len() - k,
        {
            let ray = rays[k];
            let g = ray.into_global_frame(&self.zenith);
            let band = crate::angle::wrap_aop_ud(90_000_000 - g.aop().into_inner());
            let mag: i64 = if band < 0 {
                -band
            } else {
                band
            };
            if mag <= self.thres_ud {
                let angle = crate::angle::wrap_aop_ud(atan2_ud(ray.coord().y(), ray.coord().x()));
                acc.vote(angle);
            }
            k = k + 1;
        }
        proof {
            vstd::arithmetic::div_mod::lemma_div_is_ordered(
                self.res_spec(),
                180_000_000,
                self.res_spec(),
            );
            vstd::arithmetic::div_mod::lemma_div_multiples_vanish(1, self.res_spec());
        }
        acc.winner()
    }
}

} // verus!
