//! Estimating a camera's orientation from a measured ray image.
//!
//! For each candidate orientation the estimator simulates the sky the
//! camera would see, carries the measured image into the global frame
//! anchored at that candidate's zenith pixel, and scores the candidate
//! by a polarization-degree-weighted circular loss. The candidate with
//! the strictly smallest loss wins; on ties the first encountered is
//! kept.

use crate::angle::{lemma_wrap_aop_range, wrap_aop};
use crate::bearing::Bearing;
use crate::error::Error;
use crate::image::RayImage;
use crate::model::SkyModel;
use crate::optic::{Camera, Optic};
use crate::ray::{offset_angle, Ray, SensorFrame};
use crate::rotation::{rot_of, Orientation};
use crate::sensor::ImageSensor;
use crate::simulation::{
    cell_simulated, rot_transpose, sim_cell_spec, zenith_azimuth_spec, zenith_polar_spec,
    Simulation,
};
use vstd::prelude::*;

verus! {

/// The global-frame angle of polarization of a measured sensor-frame
/// ray, anchored at the zenith position `(zx, zy)`.
pub open spec fn measured_aop_global(m: Ray<SensorFrame>, zx: int, zy: int) -> int {
    wrap_aop(m.aop_spec() - offset_angle(m.x_spec(), m.y_spec(), zx, zy))
}

/// The weight a pixel contributes to the loss: the measured degree of
/// polarization where measurement and simulation are both present,
/// nothing otherwise.
pub open spec fn pair_weight(mc: Option<Ray<SensorFrame>>, sc: Option<(int, int, int, int)>) -> int {
    match (mc, sc) {
        (Some(m), Some(_)) => m.dop_spec(),
        _ => 0,
    }
}

/// The weighted error a pixel contributes to the loss: the squared
/// wrapped difference between the measured angle, carried into the
/// global frame, and the simulated angle, weighted by the measured
/// degree of polarization.
pub open spec fn pair_err(
    mc: Option<Ray<SensorFrame>>,
    sc: Option<(int, int, int, int)>,
    zx: int,
    zy: int,
) -> int {
    match (mc, sc) {
        (Some(m), Some(s)) => {
            let d = wrap_aop(measured_aop_global(m, zx, zy) - s.0);
            m.dop_spec() * d * d
        },
        _ => 0,
    }
}

/// The total weight of the first `n` pixels.
pub open spec fn sum_weight<O: Optic>(
    optic: O,
    sensor: ImageSensor,
    m: crate::rotation::Rot3,
    solar: Bearing,
    img: Seq<Option<Ray<SensorFrame>>>,
    n: int,
) -> int
    decreases n,
{
    if n <= 0 {
        0
    } else {
        sum_weight(optic, sensor, m, solar, img, n - 1) + pair_weight(
            img[n - 1],
            sim_cell_spec(
                optic,
                sensor,
                m,
                solar,
                (n - 1) / sensor.cols_spec(),
                (n - 1) % sensor.cols_spec(),
            ),
        )
    }
}

/// The total weighted error of the first `n` pixels.
pub open spec fn sum_err<O: Optic>(
    optic: O,
    sensor: ImageSensor,
    m: crate::rotation::Rot3,
    solar: Bearing,
    img: Seq<Option<Ray<SensorFrame>>>,
    zx: int,
    zy: int,
    n: int,
) -> int
    decreases n,
{
    if n <= 0 {
        0
    } else {
        sum_err(optic, sensor, m, solar, img, zx, zy, n - 1) + pair_err(
            img[n - 1],
            sim_cell_spec(
                optic,
                sensor,
                m,
                solar,
                (n - 1) / sensor.cols_spec(),
                (n - 1) % sensor.cols_spec(),
            ),
            zx,
            zy,
        )
    }
}

/// The loss of one candidate orientation against a measured image:
/// the weighted mean of the squared wrapped angle differences over the
/// pixels where measurement and simulation are both present.
///
/// `None` when the candidate's zenith does not project squarely in
/// front of the lens, or when no overlapping pixel carries any
/// polarization: such a candidate cannot be scored.
///
/// Opaque: the search folds over applications of this function and
/// never needs its body; only the scoring itself unfolds it.
#[verifier::opaque]
pub open spec fn cand_loss_spec<O: Optic>(
    optic: O,
    sensor: ImageSensor,
    solar: Bearing,
    img: Seq<Option<Ray<SensorFrame>>>,
    cand: Orientation,
) -> Option<int> {
    let m = rot_of(cand);
    let mt = rot_transpose(m);
    if zenith_polar_spec(mt) <= 90_000_000 {
        None
    } else {
        let zp = zenith_polar_spec(mt);
        let za = zenith_azimuth_spec(mt);
        let zx = optic.forward_x_spec(zp, za);
        let zy = optic.forward_y_spec(zp, za);
        let ws = sum_weight(optic, sensor, m, solar, img, img.len() as int);
        if ws <= 0 {
            None
        } else {
            Some(sum_err(optic, sensor, m, solar, img, zx, zy, img.len() as int) / ws)
        }
    }
}

/// Whether `e` is the estimate the fold returns when `i` is the index
/// of the winning candidate: the candidate at `i` scores exactly
/// `e.loss`, and every earlier candidate is unscoreable or scores
/// strictly worse, so on ties the first encountered wins.
pub open spec fn first_minimal_at<O: Optic>(
    optic: O,
    sensor: ImageSensor,
    solar: Bearing,
    img: Seq<Option<Ray<SensorFrame>>>,
    cands: Seq<Orientation>,
    i: int,
    e: Estimate,
) -> bool {
    0 <= i < cands.len() && cands[i] == e.orientation && cand_loss_spec(
        optic,
        sensor,
        solar,
        img,
        cands[i],
    ) == Some(e.loss as int) && forall|j: int|
        0 <= j < i ==> match cand_loss_spec(optic, sensor, solar, img, #[trigger] cands[j]) {
            Some(l) => l > e.loss,
            None => true,
        }
}

/// Whether `e` is the first-encountered strict minimum of some index
/// of the candidate list.
pub open spec fn has_first_minimal<O: Optic>(
    optic: O,
    sensor: ImageSensor,
    solar: Bearing,
    img: Seq<Option<Ray<SensorFrame>>>,
    cands: Seq<Orientation>,
    e: Estimate,
) -> bool {
    exists|i: int| #[trigger] first_minimal_at(optic, sensor, solar, img, cands, i, e)
}

/// One scored candidate: an orientation and its loss, in squared
/// microdegrees of weighted circular error.
#[derive(Clone, Copy, Debug, PartialEq, Eq, Structural)]
pub struct Estimate {
    /// The candidate orientation.
    pub orientation: Orientation,
    /// The candidate's loss.
    pub loss: u64,
}

impl Estimate {
    /// The estimate with the strictly smaller loss; `self` on ties.
    pub fn min(self, other: Self) -> (r: Self)
        ensures
            r == (if other.loss < self.loss {
                other
            } else {
                self
            }),
    {
        if other.loss < self.loss {
            other
        } else {
            self
        }
    }
}

/// A source of candidate orientations for the estimator's search.
pub trait Searcher {
    /// Yields at most `max` candidate orientations.
    fn candidates(&mut self, max: usize) -> (r: Vec<Orientation>)
        ensures
            r@.len() <= max,
            forall|i: int| 0 <= i < r@.len() ==> (#[trigger] r@[i]).wf(),
    ;
}

/// A searcher that yields a fixed list of candidates.
pub struct VecSearch {
    list: Vec<Orientation>,
}

impl VecSearch {
    /// The fixed candidates.
    pub closed spec fn list_spec(&self) -> Seq<Orientation> {
        self.list@
    }

    /// Creates a searcher over a fixed candidate list.
    pub fn new(list: Vec<Orientation>) -> (r: Self)
        requires
            forall|i: int| 0 <= i < list@.len() ==> (#[trigger] list@[i]).wf(),
        ensures
            r.list_spec() == list@,
    {
        Self { list }
    }
}

impl Searcher for VecSearch {
    /// Yields the first `max` stored candidates, in order: exactly the
    /// prefix of the list, whenever the list was built from valid
    /// orientations, as `VecSearch::new` demands.
    fn candidates(&mut self, max: usize) -> (r: Vec<Orientation>)
        ensures
            (forall|j: int|
                0 <= j < old(self).list_spec().len() ==> (#[trigger] old(
                    self,
                ).list_spec()[j]).wf()) ==> r@ == old(self).list_spec().take(
                if max as int <= old(self).list_spec().len() as int {
                    max as int
                } else {
                    old(self).list_spec().len() as int
                },
            ),
            final(self).list_spec() == old(self).list_spec(),
    {
        let ghost all_wf = forall|j: int|
            0 <= j < self.list@.len() ==> (#[trigger] self.list@[j]).wf();
        let mut out: Vec<Orientation> = Vec::new();
        let mut i: usize = 0;
        proof {
            assert(self.list@.take(0int) =~= Seq::<Orientation>::empty());
        }
        while i < self.list.len() && out.len() < max
            invariant
                all_wf == (forall|j: int|
                    0 <= j < self.list@.len() ==> (#[trigger] self.list@[j]).wf()),
                out@.len() <= i,
                i <= self.list@.len(),
                out@.len() <= max,
                all_wf ==> i <= max && out@ == self.list@.take(i as int),
                forall|j: int| 0 <= j < out@.len() ==> (#[trigger] out@[j]).wf(),
            decreases self.list@.len() - i,
        {
            let o = self.list[i];
            proof {
                if all_wf {
                    assert(self.list@.take(i + 1).drop_last() =~= self.list@.take(i as int));
                    assert(self.list@.take(i + 1).last() == self.list@[i as int]);
                }
            }
            if -360_000_000 <= o.roll() && o.roll() <= 360_000_000 && -360_000_000 <= o.pitch()
                && o.pitch() <= 360_000_000 && -360_000_000 <= o.yaw() && o.yaw()
                <= 360_000_000 {
                out.push(o);
            }
            i = i + 1;
        }
        proof {
            if all_wf {
                if i < self.list@.len() {
                    assert(out@.len() == max);
                } else {
                    assert(self.list@.take(self.list@.len() as int) =~= self.list@);
                }
            }
        }
        out
    }
}

#[verifier::external_type_specification]
#[verifier::external_body]
pub struct ExStdRng(rand::rngs::StdRng);

/// Relies on rand's `StdRng`, seeded through `SeedableRng::seed_from_u64`:
/// a pseudo-random generator whose stream is a deterministic function of
/// the seed.
#[verifier::external_body]
fn rng_from_seed(seed: u64) -> rand::rngs::StdRng {
    <rand::rngs::StdRng as rand::SeedableRng>::seed_from_u64(seed)
}

/// Relies on rand's `RngCore::next_u64`: the next value of the
/// generator's stream. Nothing is promised of a random value.
#[verifier::external_body]
fn rng_next(rng: &mut rand::rngs::StdRng) -> u64 {
    rand::RngCore::next_u64(rng)
}

/// A searcher that samples orientations uniformly at random between two
/// bounds, axis by axis.
pub struct StochasticSearch {
    low: Orientation,
    high: Orientation,
    rng: rand::rngs::StdRng,
}

impl StochasticSearch {
    /// The lower bounds of the sampled axes.
    pub closed spec fn low_spec(&self) -> Orientation {
        self.low
    }

    /// The upper bounds of the sampled axes.
    pub closed spec fn high_spec(&self) -> Orientation {
        self.high
    }

    /// Creates a sampler of orientations between `low` inclusive and
    /// `high` exclusive on each axis, drawing from a generator seeded
    /// with `seed` so that repeated runs with one seed draw the same
    /// candidates.
    ///
    /// Fails exactly when some axis spans an empty range.
    pub fn try_new(low: Orientation, high: Orientation, seed: u64) -> (r: Result<Self, Error>)
        requires
            low.wf(),
            high.wf(),
        ensures
            r is Ok <==> low.roll_spec() < high.roll_spec() && low.pitch_spec() < high.pitch_spec()
                && low.yaw_spec() < high.yaw_spec(),
            r matches Ok(s) ==> s.low_spec() == low && s.high_spec() == high,
            r matches Err(e) ==> e == Error::EmptyRange,
    {
        if low.roll() < high.roll() && low.pitch() < high.pitch() && low.yaw() < high.yaw() {
            Ok(Self { low, high, rng: rng_from_seed(seed) })
        } else {
            Err(Error::EmptyRange)
        }
    }

    /// Draws one axis value in `[low, high)` by reducing a draw of the
    /// generator modulo the axis span.
    fn sample_axis(&mut self, low: i64, high: i64) -> (r: i64)
        requires
            -360_000_000 <= low < high <= 360_000_000,
        ensures
            low <= r < high,
            final(self).low_spec() == old(self).low_spec(),
            final(self).high_spec() == old(self).high_spec(),
    {
        let span: u64 = (high - low) as u64;
        let draw: u64 = rng_next(&mut self.rng);
        low + (draw % span) as i64
    }
}

impl Searcher for StochasticSearch {
    /// Draws exactly `max` candidates, each axis uniformly reduced into
    /// `[low, high)`, whenever the bounds span a box, as
    /// `StochasticSearch::try_new` demands. Which candidates are drawn
    /// depends on the generator's state; that they lie in the box does
    /// not.
    fn candidates(&mut self, max: usize) -> (r: Vec<Orientation>)
        ensures
            (old(self).low_spec().wf() && old(self).high_spec().wf() && old(
                self,
            ).low_spec().roll_spec() < old(self).high_spec().roll_spec() && old(
                self,
            ).low_spec().pitch_spec() < old(self).high_spec().pitch_spec() && old(
                self,
            ).low_spec().yaw_spec() < old(self).high_spec().yaw_spec()) ==> r@.len() == max
                && forall|j: int|
                0 <= j < r@.len() ==> {
                    let c = #[trigger] r@[j];
                    &&& old(self).low_spec().roll_spec() <= c.roll_spec()
                    &&& c.roll_spec() < old(self).high_spec().roll_spec()
                    &&& old(self).low_spec().pitch_spec() <= c.pitch_spec()
                    &&& c.pitch_spec() < old(self).high_spec().pitch_spec()
                    &&& old(self).low_spec().yaw_spec() <= c.yaw_spec()
                    &&& c.yaw_spec() < old(self).high_spec().yaw_spec()
                },
            final(self).low_spec() == old(self).low_spec(),
            final(self).high_spec() == old(self).high_spec(),
    {
        let mut out: Vec<Orientation> = Vec::new();
        if !(self.low.roll() < self.high.roll() && self.low.pitch() < self.high.pitch()
            && self.low.yaw() < self.high.yaw() && -360_000_000 <= self.low.roll()
            && self.high.roll() <= 360_000_000 && -360_000_000 <= self.low.pitch()
            && self.high.pitch() <= 360_000_000 && -360_000_000 <= self.low.yaw()
            && self.high.yaw() <= 360_000_000) {
            return out;
        }
        let low = self.low;
        let high = self.high;
        let mut i: usize = 0;
        while i < max
            invariant
                low == self.low_spec(),
                high == self.high_spec(),
                self.low_spec() == old(self).low_spec(),
                self.high_spec() == old(self).high_spec(),
                out@.len() == i,
                i <= max,
                -360_000_000 <= low.roll_spec() && low.roll_spec() < high.roll_spec()
                    && high.roll_spec() <= 360_000_000,
                -360_000_000 <= low.pitch_spec() && low.pitch_spec() < high.pitch_spec()
                    && high.pitch_spec() <= 360_000_000,
                -360_000_000 <= low.yaw_spec() && low.yaw_spec() < high.yaw_spec()
                    && high.yaw_spec() <= 360_000_000,
                forall|j: int|
                    0 <= j < i ==> {
                        let c = #[trigger] out@[j];
                        &&& c.wf()
                        &&& low.roll_spec() <= c.roll_spec() < high.roll_spec()
                        &&& low.pitch_spec() <= c.pitch_spec() < high.pitch_spec()
                        &&& low.yaw_spec() <= c.yaw_spec() < high.yaw_spec()
                    },
            decreases max - i,
        {
            let roll = self.sample_axis(low.roll(), high.roll());
            let pitch = self.sample_axis(low.pitch(), high.pitch());
            let yaw = self.sample_axis(low.yaw(), high.yaw());
            out.push(Orientation::new(roll, pitch, yaw));
            i = i + 1;
        }
        out
    }
}

/// A searcher that sweeps roll, pitch and yaw over a box of attitudes
/// with a fixed angular resolution, yaw varying fastest.
pub struct GridSearch {
    low: Orientation,
    high: Orientation,
    res_ud: i64,
}

impl GridSearch {
    /// The lower corner of the swept box.
    pub closed spec fn low_spec(&self) -> Orientation {
        self.low
    }

    /// The upper corner of the swept box.
    pub closed spec fn high_spec(&self) -> Orientation {
        self.high
    }

    /// The angular resolution in microdegrees.
    pub closed spec fn res_spec(&self) -> int {
        self.res_ud as int
    }

    /// Creates a sweep of the box between `low` and `high`, both
    /// inclusive, stepping each axis by `res_ud`.
    ///
    /// Fails exactly when the resolution is not positive or some axis
    /// of `low` lies above the same axis of `high`.
    pub fn try_new(low: Orientation, high: Orientation, res_ud: i64) -> (r: Result<Self, Error>)
        requires
            low.wf(),
            high.wf(),
        ensures
            r is Ok <==> 0 < res_ud <= 720_000_000 && low.roll_spec() <= high.roll_spec()
                && low.pitch_spec() <= high.pitch_spec() && low.yaw_spec() <= high.yaw_spec(),
            r matches Ok(s) ==> s.low_spec() == low && s.high_spec() == high && s.res_spec()
                == res_ud,
            r matches Err(e) ==> e == Error::EmptyRange,
    {
        if 0 < res_ud && res_ud <= 720_000_000 && low.roll() <= high.roll() && low.pitch()
            <= high.pitch() && low.yaw() <= high.yaw() {
            Ok(Self { low, high, res_ud })
        } else {
            Err(Error::EmptyRange)
        }
    }
}

/// The number of grid steps an axis holds between `low` and `high`
/// inclusive, stepping by `res`.
pub open spec fn grid_axis_count(low: int, high: int, res: int) -> int {
    (high - low) / res + 1
}

/// The roll of the `t`-th point of a row-major grid sweep with `np`
/// pitch steps and `ny` yaw steps: roll varies slowest.
pub open spec fn grid_roll(low: Orientation, res: int, np: int, ny: int, t: int) -> int {
    low.roll_spec() + (t / (np * ny)) * res
}

/// The pitch of the `t`-th point of the sweep.
pub open spec fn grid_pitch(low: Orientation, res: int, np: int, ny: int, t: int) -> int {
    low.pitch_spec() + ((t % (np * ny)) / ny) * res
}

/// The yaw of the `t`-th point of the sweep: yaw varies fastest.
pub open spec fn grid_yaw(low: Orientation, res: int, np: int, ny: int, t: int) -> int {
    low.yaw_spec() + ((t % (np * ny)) % ny) * res
}

impl Searcher for GridSearch {
    /// Yields the first `max` points of the row-major sweep of the box,
    /// yaw varying fastest — all of them when the grid is smaller than
    /// `max` — whenever the box and resolution are as
    /// `GridSearch::try_new` demands.
    fn candidates(&mut self, max: usize) -> (r: Vec<Orientation>)
        ensures
            (old(self).low_spec().wf() && old(self).high_spec().wf() && old(
                self,
            ).low_spec().roll_spec() <= old(self).high_spec().roll_spec() && old(
                self,
            ).low_spec().pitch_spec() <= old(self).high_spec().pitch_spec() && old(
                self,
            ).low_spec().yaw_spec() <= old(self).high_spec().yaw_spec() && 0 < old(
                self,
            ).res_spec() <= 720_000_000) ==> ({
                let low = old(self).low_spec();
                let res = old(self).res_spec();
                let nr = grid_axis_count(low.roll_spec(), old(self).high_spec().roll_spec(), res);
                let np = grid_axis_count(low.pitch_spec(), old(self).high_spec().pitch_spec(), res);
                let ny = grid_axis_count(low.yaw_spec(), old(self).high_spec().yaw_spec(), res);
                &&& r@.len() == (if nr * np * ny <= max as int {
                    nr * np * ny
                } else {
                    max as int
                })
                &&& forall|t: int|
                    0 <= t < r@.len() ==> {
                        let c = #[trigger] r@[t];
                        &&& c.roll_spec() == grid_roll(low, res, np, ny, t)
                        &&& c.pitch_spec() == grid_pitch(low, res, np, ny, t)
                        &&& c.yaw_spec() == grid_yaw(low, res, np, ny, t)
                    }
            }),
            final(self).low_spec() == old(self).low_spec(),
            final(self).high_spec() == old(self).high_spec(),
            final(self).res_spec() == old(self).res_spec(),
    {
        let low = self.low;
        let high = self.high;
        let res = self.res_ud;
        let mut out: Vec<Orientation> = Vec::new();
        if !(0 < res && res <= 720_000_000 && -360_000_000 <= low.roll() && low.roll()
            <= high.roll() && high.roll() <= 360_000_000 && -360_000_000 <= low.pitch()
            && low.pitch() <= high.pitch() && high.pitch() <= 360_000_000 && -360_000_000
            <= low.yaw() && low.yaw() <= high.yaw() && high.yaw() <= 360_000_000) {
            return out;
        }
        let nr: u64 = ((high.roll() - low.roll()) as u64) / (res as u64) + 1;
        let np: u64 = ((high.pitch() - low.pitch()) as u64) / (res as u64) + 1;
        let ny: u64 = ((high.yaw() - low.yaw()) as u64) / (res as u64) + 1;
        proof {
            lemma_axis_count_bounds(low.roll_spec(), high.roll_spec(), res as int);
            lemma_axis_count_bounds(low.pitch_spec(), high.pitch_spec(), res as int);
            lemma_axis_count_bounds(low.yaw_spec(), high.yaw_spec(), res as int);
            assert(0 < (np as int) * (ny as int) <= 521_000_001_440_000_001) by (nonlinear_arith)
                requires
                    0 < np as int <= 720_000_001,
                    0 < ny as int <= 720_000_001,
            ;
            assert(0 < (nr as int) * ((np as int) * (ny as int))
                <= 400_000_000_000_000_000_000_000_000) by (nonlinear_arith)
                requires
                    0 < nr as int <= 720_000_001,
                    0 < (np as int) * (ny as int) <= 521_000_001_440_000_001,
            ;
        }
        let npny: u128 = (np as u128) * (ny as u128);
        let total: u128 = (nr as u128) * npny;
        let limit: usize = if total <= max as u128 {
            total as usize
        } else {
            max
        };
        let mut t: usize = 0;
        while t < limit
            invariant
                low == self.low_spec(),
                high == self.high_spec(),
                res == self.res_spec(),
                self.low_spec() == old(self).low_spec(),
                self.high_spec() == old(self).high_spec(),
                self.res_spec() == old(self).res_spec(),
                0 < res <= 720_000_000,
                -360_000_000 <= low.roll_spec() <= high.roll_spec() <= 360_000_000,
                -360_000_000 <= low.pitch_spec() <= high.pitch_spec() <= 360_000_000,
                -360_000_000 <= low.yaw_spec() <= high.yaw_spec() <= 360_000_000,
                nr as int == grid_axis_count(low.roll_spec(), high.roll_spec(), res as int),
                np as int == grid_axis_count(low.pitch_spec(), high.pitch_spec(), res as int),
                ny as int == grid_axis_count(low.yaw_spec(), high.yaw_spec(), res as int),
                0 < nr as int <= 720_000_001,
                0 < np as int <= 720_000_001,
                0 < ny as int <= 720_000_001,
                npny as int == (np as int) * (ny as int),
                total as int == (nr as int) * ((np as int) * (ny as int)),
                limit as int == (if total as int <= max as int {
                    total as int
                } else {
                    max as int
                }),
                t <= limit,
                out@.len() == t,
                forall|s: int|
                    0 <= s < t ==> {
                        let c = #[trigger] out@[s];
                        &&& c.wf()
                        &&& c.roll_spec() == grid_roll(low, res as int, np as int, ny as int, s)
                        &&& c.pitch_spec() == grid_pitch(low, res as int, np as int, ny as int, s)
                        &&& c.yaw_spec() == grid_yaw(low, res as int, np as int, ny as int, s)
                    },
            decreases limit - t,
        {
            let tw: u128 = t as u128;
            proof {
                vstd::arithmetic::div_mod::lemma_multiply_divide_lt(
                    tw as int,
                    npny as int,
                    nr as int,
                );
                vstd::arithmetic::div_mod::lemma_mod_bound(tw as int, npny as int);
                vstd::arithmetic::div_mod::lemma_div_pos_is_pos(tw as int, npny as int);
                vstd::arithmetic::div_mod::lemma_mod_bound(
                    (tw as int) % (npny as int),
                    ny as int,
                );
                vstd::arithmetic::div_mod::lemma_multiply_divide_lt(
                    (tw as int) % (npny as int),
                    ny as int,
                    np as int,
                );
                vstd::arithmetic::div_mod::lemma_div_pos_is_pos(
                    (tw as int) % (npny as int),
                    ny as int,
                );
            }
            let a: u64 = (tw / npny) as u64;
            let rem: u128 = tw % npny;
            let b: u64 = (rem / (ny as u128)) as u64;
            let c: u64 = (rem % (ny as u128)) as u64;
            proof {
                lemma_axis_step_in_range(
                    low.roll_spec(),
                    high.roll_spec(),
                    res as int,
                    a as int,
                );
                lemma_axis_step_in_range(
                    low.pitch_spec(),
                    high.pitch_spec(),
                    res as int,
                    b as int,
                );
                lemma_axis_step_in_range(low.yaw_spec(), high.yaw_spec(), res as int, c as int);
            }
            let roll: i64 = low.roll() + (a as i64) * res;
            let pitch: i64 = low.pitch() + (b as i64) * res;
            let yaw: i64 = low.yaw() + (c as i64) * res;
            out.push(Orientation::new(roll, pitch, yaw));
            t = t + 1;
        }
        proof {
            assert((nr as int * np as int) * ny as int == nr as int * ((np as int) * (ny as int)))
                by (nonlinear_arith);
        }
        out
    }
}

/// An axis of a sane box holds between one and 720e6 + 1 grid steps.
proof fn lemma_axis_count_bounds(low: int, high: int, res: int)
    requires
        low <= high,
        high - low <= 720_000_000,
        0 < res <= 720_000_000,
    ensures
        0 < grid_axis_count(low, high, res) <= 720_000_001,
{
    vstd::arithmetic::div_mod::lemma_div_pos_is_pos(high - low, res);
    vstd::arithmetic::div_mod::lemma_div_is_ordered_by_denominator(high - low, 1, res);
}

/// A step index below the axis count lands inside the axis range.
proof fn lemma_axis_step_in_range(low: int, high: int, res: int, k: int)
    requires
        low <= high,
        0 < res,
        0 <= k < grid_axis_count(low, high, res),
    ensures
        low <= low + k * res <= high,
        0 <= k * res <= high - low,
{
    vstd::arithmetic::mul::lemma_mul_inequality(k, (high - low) / res, res);
    vstd::arithmetic::div_mod::lemma_fundamental_div_mod(high - low, res);
    vstd::arithmetic::div_mod::lemma_mod_bound(high - low, res);
    vstd::arithmetic::mul::lemma_mul_nonnegative(k, res);
}

/// Estimates an orientation by matching the measured polarization
/// pattern against simulated skies.
pub struct PatternMatch<O> {
    camera: Camera<O>,
    model: SkyModel,
    max_iters: usize,
}

impl<O: Optic + Copy> PatternMatch<O> {
    /// The camera.
    pub closed spec fn camera_spec(&self) -> Camera<O> {
        self.camera
    }

    /// The sky model.
    pub closed spec fn model_spec(&self) -> SkyModel {
        self.model
    }

    /// The candidate budget.
    pub closed spec fn max_iters_spec(&self) -> int {
        self.max_iters as int
    }

    /// Camera and model are in range.
    pub open spec fn wf(&self) -> bool {
        self.camera_spec().wf() && self.model_spec().wf()
    }

    /// Creates an estimator for a camera under a modelled sky, bounded
    /// to at most `max_iters` candidates per estimation.
    pub fn new(camera: Camera<O>, model: SkyModel, max_iters: usize) -> (r: Self)
        requires
            camera.wf(),
            model.wf(),
        ensures
            r.camera_spec() == camera,
            r.model_spec() == model,
            r.max_iters_spec() == max_iters,
            r.wf(),
    {
        Self { camera, model, max_iters }
    }

    /// Scores one candidate orientation against the measured image:
    /// exactly the loss that `cand_loss_spec` defines, or `None` where
    /// it defines none.
    pub fn candidate_loss(&self, image: &RayImage<SensorFrame>, cand: &Orientation) -> (r: Option<
        u64,
    >)
        requires
            self.wf(),
            image.wf(),
            cand.wf(),
            image.rows_spec() == self.camera_spec().sensor_spec().rows_spec(),
            image.cols_spec() == self.camera_spec().sensor_spec().cols_spec(),
        ensures
            match cand_loss_spec(
                self.camera_spec().optic_spec(),
                self.camera_spec().sensor_spec(),
                self.model_spec().solar_spec(),
                image.pixels_spec(),
                *cand,
            ) {
                None => r is None,
                Some(l) => r matches Some(v) && v == l,
            },
    {
        proof {
            reveal(cand_loss_spec);
        }
        let ghost optic = self.camera_spec().optic_spec();
        let ghost sensor = self.camera_spec().sensor_spec();
        let ghost solar = self.model_spec().solar_spec();
        let ghost img = image.pixels_spec();
        let sim = Simulation::new(self.camera, cand, self.model);
        let zen = match sim.zenith_coord() {
            Some(z) => z,
            None => {
                return None;
            },
        };
        let simulated = sim.ray_image();
        let n: usize = image.pixels().len();
        let zx: i64 = zen.x();
        let zy: i64 = zen.y();
        let mut acc_w: u128 = 0;
        let mut acc_e: u128 = 0;
        let mut k: usize = 0;
        proof {
            assert(simulated.pixels_spec().len() == image.pixels_spec().len());
            assert(image.rows_spec() * image.cols_spec() <= 4_294_836_225) by (nonlinear_arith)
                requires
                    0 <= image.rows_spec() <= 65535,
                    0 <= image.cols_spec() <= 65535,
            ;
        }
        while k < n
            invariant
                self.wf(),
                image.wf(),
                cand.wf(),
                optic == self.camera_spec().optic_spec(),
                sensor == self.camera_spec().sensor_spec(),
                solar == self.model_spec().solar_spec(),
                img == image.pixels_spec(),
                image.rows_spec() == sensor.rows_spec(),
                image.cols_spec() == sensor.cols_spec(),
                n == img.len(),
                n <= 4_294_836_225,
                k <= n,
                sim.wf(),
                sim.camera_spec() == self.camera_spec(),
                sim.model_spec() == self.model_spec(),
                sim.body_to_enu_spec() == rot_of(*cand),
                zx == optic.forward_x_spec(
                    zenith_polar_spec(rot_transpose(rot_of(*cand))),
                    zenith_azimuth_spec(rot_transpose(rot_of(*cand))),
                ),
                zy == optic.forward_y_spec(
                    zenith_polar_spec(rot_transpose(rot_of(*cand))),
                    zenith_azimuth_spec(rot_transpose(rot_of(*cand))),
                ),
                -2_000_000_000_000_000_000 <= zx <= 2_000_000_000_000_000_000,
                -2_000_000_000_000_000_000 <= zy <= 2_000_000_000_000_000_000,
                zen.x_spec() == zx,
                zen.y_spec() == zy,
                simulated.pixels_spec().len() == img.len(),
                simulated.rows_spec() == sensor.rows_spec(),
                simulated.cols_spec() == sensor.cols_spec(),
                simulated.wf(),
                forall|j: int|
                    0 <= j < img.len() ==> cell_simulated(
                        #[trigger] simulated.pixels_spec()[j],
                        sim_cell_spec(
                            optic,
                            sensor,
                            rot_of(*cand),
                            solar,
                            j / sensor.cols_spec(),
                            j % sensor.cols_spec(),
                        ),
                    ),
                acc_w == sum_weight(optic, sensor, rot_of(*cand), solar, img, k as int),
                acc_e == sum_err(optic, sensor, rot_of(*cand), solar, img, zx as int, zy as int, k as int),
                acc_w <= k * 1_000_000,
                acc_e <= k * 8_100_000_000_000_000_000_000,
            decreases n - k,
        {
            let mc = &image.pixels()[k];
            let sc = &simulated.pixels()[k];
            match (mc, sc) {
                (Some(m), Some(s)) => {
                    let mg = m.into_global_frame(&zen);
                    let d: i64 = crate::angle::wrap_aop_ud(mg.aop().into_inner()
                        - s.aop().into_inner());
                    let w: i64 = m.dop().into_inner();
                    proof {
                        assert(0 <= (d as int) * (d as int) <= 8_100_000_000_000_000)
                            by (nonlinear_arith)
                            requires
                                -90_000_000 <= d as int <= 90_000_000,
                        ;
                        assert((w as int) * ((d as int) * (d as int))
                            <= 8_100_000_000_000_000_000_000) by (nonlinear_arith)
                            requires
                                0 <= w as int <= 1_000_000,
                                0 <= (d as int) * (d as int) <= 8_100_000_000_000_000,
                        ;
                        assert((w as int) * (d as int) * (d as int) == (w as int) * ((d as int)
                            * (d as int))) by (nonlinear_arith);
                        lemma_sum_step_bounds(k as int);
                    }
                    let dd: u128 = ((d as i128) * (d as i128)) as u128;
                    acc_w = acc_w + (w as u128);
                    acc_e = acc_e + (w as u128) * dd;
                },
                _ => {
                    proof {
                        lemma_sum_step_bounds(k as int);
                    }
                },
            }
            k = k + 1;
        }
        if acc_w == 0 {
            None
        } else {
            proof {
                lemma_sum_err_bounded(
                    optic,
                    sensor,
                    rot_of(*cand),
                    solar,
                    img,
                    zx as int,
                    zy as int,
                    img.len() as int,
                );
                vstd::arithmetic::div_mod::lemma_div_pos_is_pos(acc_e as int, acc_w as int);
                vstd::arithmetic::div_mod::lemma_div_is_ordered(
                    acc_e as int,
                    8_100_000_000_000_000 * acc_w as int,
                    acc_w as int,
                );
                vstd::arithmetic::div_mod::lemma_div_multiples_vanish(
                    8_100_000_000_000_000,
                    acc_w as int,
                );
            }
            Some((acc_e / acc_w) as u64)
        }
    }

    /// Scores every candidate and returns the first one with the
    /// strictly smallest loss.
    ///
    /// Fails with `EmptyRange` exactly when no candidate can be scored
    /// at all — the list is empty, or every candidate's zenith misses
    /// the sensor's field of view or overlaps no polarized measurement.
    #[verifier::rlimit(80)]
    pub fn estimate_candidates(
        &self,
        image: &RayImage<SensorFrame>,
        candidates: &Vec<Orientation>,
    ) -> (r: Result<Estimate, Error>)
        requires
            self.wf(),
            image.wf(),
            forall|i: int| 0 <= i < candidates@.len() ==> (#[trigger] candidates@[i]).wf(),
            image.rows_spec() == self.camera_spec().sensor_spec().rows_spec(),
            image.cols_spec() == self.camera_spec().sensor_spec().cols_spec(),
        ensures
            r matches Ok(e) ==> has_first_minimal(
                self.camera_spec().optic_spec(),
                self.camera_spec().sensor_spec(),
                self.model_spec().solar_spec(),
                image.pixels_spec(),
                candidates@,
                e,
            ),
            r matches Ok(e) ==> forall|j: int|
                0 <= j < candidates@.len() ==> match cand_loss_spec(
                    self.camera_spec().optic_spec(),
                    self.camera_spec().sensor_spec(),
                    self.model_spec().solar_spec(),
                    image.pixels_spec(),
                    #[trigger] candidates@[j],
                ) {
                    Some(l) => e.loss as int <= l,
                    None => true,
                },
            r is Err <==> forall|j: int|
                0 <= j < candidates@.len() ==> cand_loss_spec(
                    self.camera_spec().optic_spec(),
                    self.camera_spec().sensor_spec(),
                    self.model_spec().solar_spec(),
                    image.pixels_spec(),
                    #[trigger] candidates@[j],
                ) is None,
            r matches Err(e) ==> e == Error::EmptyRange,
    {
        let ghost optic = self.camera_spec().optic_spec();
        let ghost sensor = self.camera_spec().sensor_spec();
        let ghost solar = self.model_spec().solar_spec();
        let ghost img = image.pixels_spec();
        let mut best: Option<Estimate> = None;
        let ghost mut winner_idx: int = 0;
        let mut i: usize = 0;
        while i < candidates.len()
            invariant
                self.wf(),
                image.wf(),
                optic == self.camera_spec().optic_spec(),
                sensor == self.camera_spec().sensor_spec(),
                solar == self.model_spec().solar_spec(),
                img == image.pixels_spec(),
                image.rows_spec() == sensor.rows_spec(),
                image.cols_spec() == sensor.cols_spec(),
                i <= candidates@.len(),
                forall|j: int| 0 <= j < candidates@.len() ==> (#[trigger] candidates@[j]).wf(),
                best is None ==> forall|j: int|
                    0 <= j < i ==> cand_loss_spec(
                        optic,
                        sensor,
                        solar,
                        img,
                        #[trigger] candidates@[j],
                    ) is None,
                best matches Some(e) ==> winner_idx < i && first_minimal_at(
                    optic,
                    sensor,
                    solar,
                    img,
                    candidates@,
                    winner_idx,
                    e,
                ),
                best matches Some(e) ==> forall|j: int|
                    0 <= j < i ==> match cand_loss_spec(
                        optic,
                        sensor,
                        solar,
                        img,
                        #[trigger] candidates@[j],
                    ) {
                        Some(l) => e.loss as int <= l,
                        None => true,
                    },
            decreases candidates@.len() - i,
        {
            let cand = candidates[i];
            let loss = self.candidate_loss(image, &cand);
            if let Some(l) = loss {
                let replace = match &best {
                    None => true,
                    Some(b) => l < b.loss,
                };
                if replace {
                    proof {
                        let e_new = Estimate { orientation: cand, loss: l };
                        assert forall|j2: int| 0 <= j2 < i as int implies match cand_loss_spec(
                            optic,
                            sensor,
                            solar,
                            img,
                            #[trigger] candidates@[j2],
                        ) {
                            Some(l2) => l2 > e_new.loss,
                            None => true,
                        } by {
                            match best {
                                Some(b) => {
                                },
                                None => {
                                },
                            }
                        }
                        assert(first_minimal_at(
                            optic,
                            sensor,
                            solar,
                            img,
                            candidates@,
                            i as int,
                            e_new,
                        ));
                        winner_idx = i as int;
                    }
                    best = Some(Estimate { orientation: cand, loss: l });
                }
            }
            i = i + 1;
        }
        match best {
            Some(e) => {
                proof {
                    assert(first_minimal_at(
                        self.camera_spec().optic_spec(),
                        self.camera_spec().sensor_spec(),
                        self.model_spec().solar_spec(),
                        image.pixels_spec(),
                        candidates@,
                        winner_idx,
                        e,
                    ));
                }
                Ok(e)
            },
            None => Err(Error::EmptyRange),
        }
    }

    /// Draws candidates from a searcher, bounded by the candidate
    /// budget, and scores them.
    pub fn estimate<S: Searcher>(&self, image: &RayImage<SensorFrame>, searcher: &mut S) -> (r:
        Result<Estimate, Error>)
        requires
            self.wf(),
            image.wf(),
            image.rows_spec() == self.camera_spec().sensor_spec().rows_spec(),
            image.cols_spec() == self.camera_spec().sensor_spec().cols_spec(),
        ensures
            r matches Ok(e) ==> cand_loss_spec(
                self.camera_spec().optic_spec(),
                self.camera_spec().sensor_spec(),
                self.model_spec().solar_spec(),
                image.pixels_spec(),
                e.orientation,
            ) == Some(e.loss as int),
            r matches Err(e) ==> e == Error::EmptyRange,
    {
        let cands = searcher.candidates(self.max_iters);
        self.estimate_candidates(image, &cands)
    }
}

/// An angle in microdegrees clamped into one full turn of zero.
pub open spec fn clamp_turn_spec(a: int) -> int {
    if a > 360_000_000 {
        360_000_000int
    } else if a < -360_000_000 {
        -360_000_000int
    } else {
        a
    }
}

/// The six orientations one coordinate step of `step` away from `o`,
/// clamped into the attitude range, indexed by axis: roll up and down,
/// then pitch, then yaw.
pub open spec fn step_neighbor(o: Orientation, step: int, axis: int) -> Orientation {
    if axis == 0 {
        Orientation::from_angles_spec(
            clamp_turn_spec(o.roll_spec() + step),
            clamp_turn_spec(o.pitch_spec()),
            clamp_turn_spec(o.yaw_spec()),
        )
    } else if axis == 1 {
        Orientation::from_angles_spec(
            clamp_turn_spec(o.roll_spec() - step),
            clamp_turn_spec(o.pitch_spec()),
            clamp_turn_spec(o.yaw_spec()),
        )
    } else if axis == 2 {
        Orientation::from_angles_spec(
            clamp_turn_spec(o.roll_spec()),
            clamp_turn_spec(o.pitch_spec() + step),
            clamp_turn_spec(o.yaw_spec()),
        )
    } else if axis == 3 {
        Orientation::from_angles_spec(
            clamp_turn_spec(o.roll_spec()),
            clamp_turn_spec(o.pitch_spec() - step),
            clamp_turn_spec(o.yaw_spec()),
        )
    } else if axis == 4 {
        Orientation::from_angles_spec(
            clamp_turn_spec(o.roll_spec()),
            clamp_turn_spec(o.pitch_spec()),
            clamp_turn_spec(o.yaw_spec() + step),
        )
    } else {
        Orientation::from_angles_spec(
            clamp_turn_spec(o.roll_spec()),
            clamp_turn_spec(o.pitch_spec()),
            clamp_turn_spec(o.yaw_spec() - step),
        )
    }
}

/// Whether no coordinate step away from `e.orientation` scores strictly
/// below `e.loss`: the descent sits at a local minimum of its own grid.
pub open spec fn no_better_neighbor<O: Optic>(
    optic: O,
    sensor: ImageSensor,
    solar: Bearing,
    img: Seq<Option<Ray<SensorFrame>>>,
    step: int,
    e: Estimate,
) -> bool {
    forall|axis: int|
        0 <= axis < 6 ==> match cand_loss_spec(
            optic,
            sensor,
            solar,
            img,
            #[trigger] step_neighbor(e.orientation, step, axis),
        ) {
            Some(l) => l >= e.loss,
            None => true,
        }
}

/// Whether `e` was reached from a scoreable predecessor that it
/// improved on by at most `threshold`: the improvement of the last
/// descent step fell to the convergence threshold.
pub open spec fn reached_by_small_step<O: Optic>(
    optic: O,
    sensor: ImageSensor,
    solar: Bearing,
    img: Seq<Option<Ray<SensorFrame>>>,
    step: int,
    threshold: int,
    e: Estimate,
) -> bool {
    exists|p: Orientation, axis: int|
        0 <= axis < 6 && #[trigger] step_neighbor(p, step, axis) == e.orientation && match
            cand_loss_spec(optic, sensor, solar, img, p) {
            Some(lp) => e.loss < lp && lp - e.loss <= threshold,
            None => false,
        }
}

/// Refines an orientation estimate by derivative-free coordinate
/// descent: from a starting orientation it repeatedly steps each of
/// roll, pitch and yaw by a fixed amount and moves to the best
/// neighbour, until the improvement per iteration falls to the
/// convergence threshold or the iteration budget runs out.
pub struct Matcher<O> {
    camera: Camera<O>,
    model: SkyModel,
    step_ud: i64,
    convergence_threshold: u64,
    max_iterations: usize,
}

impl<O: Optic + Copy> Matcher<O> {
    /// The camera.
    pub closed spec fn camera_spec(&self) -> Camera<O> {
        self.camera
    }

    /// The sky model.
    pub closed spec fn model_spec(&self) -> SkyModel {
        self.model
    }

    /// The coordinate step in microdegrees.
    pub closed spec fn step_spec(&self) -> int {
        self.step_ud as int
    }

    /// The convergence threshold on the loss improvement.
    pub closed spec fn threshold_spec(&self) -> int {
        self.convergence_threshold as int
    }

    /// The iteration budget.
    pub closed spec fn max_iterations_spec(&self) -> int {
        self.max_iterations as int
    }

    /// Everything is in range and the step is a positive angle of at
    /// most a quarter turn.
    pub open spec fn wf(&self) -> bool {
        self.camera_spec().wf() && self.model_spec().wf() && 0 < self.step_spec() <= 90_000_000
    }

    /// Creates a refiner stepping by `step_ud` microdegrees, accepting
    /// convergence when one iteration improves the loss by at most
    /// `convergence_threshold`, and giving up after `max_iterations`.
    pub fn new(
        camera: Camera<O>,
        model: SkyModel,
        step_ud: i64,
        convergence_threshold: u64,
        max_iterations: usize,
    ) -> (r: Self)
        requires
            camera.wf(),
            model.wf(),
            0 < step_ud <= 90_000_000,
        ensures
            r.camera_spec() == camera,
            r.model_spec() == model,
            r.step_spec() == step_ud,
            r.threshold_spec() == convergence_threshold,
            r.max_iterations_spec() == max_iterations,
            r.wf(),
    {
        Self { camera, model, step_ud, convergence_threshold, max_iterations }
    }

    /// One orientation shifted along each axis by the given amounts,
    /// clamped into the valid attitude range.
    fn shifted(o: &Orientation, dr: i64, dp: i64, dy: i64) -> (r: Orientation)
        requires
            o.wf(),
            -90_000_000 <= dr <= 90_000_000,
            -90_000_000 <= dp <= 90_000_000,
            -90_000_000 <= dy <= 90_000_000,
        ensures
            r == Orientation::from_angles_spec(
                clamp_turn_spec(o.roll_spec() + dr),
                clamp_turn_spec(o.pitch_spec() + dp),
                clamp_turn_spec(o.yaw_spec() + dy),
            ),
            r.wf(),
    {
        Orientation::new(
            clamp_turn(o.roll() + dr),
            clamp_turn(o.pitch() + dp),
            clamp_turn(o.yaw() + dy),
        )
    }

    /// Iteratively refines `initial` against the measured image.
    ///
    /// Returns an orientation whose loss never exceeds the starting
    /// loss and whose last descent step converged: either no coordinate
    /// step improves on it, or the step that reached it improved the
    /// loss by at most the threshold. Fails exactly when the starting
    /// orientation cannot be scored at all, carrying zero iterations,
    /// or when the budget runs out with every iteration improving the
    /// loss by more than the threshold, carrying the budget and the
    /// last improvement seen.
    pub fn orientation_of(&self, image: &RayImage<SensorFrame>, initial: &Orientation) -> (r:
        Result<Estimate, Error>)
        requires
            self.wf(),
            image.wf(),
            initial.wf(),
            image.rows_spec() == self.camera_spec().sensor_spec().rows_spec(),
            image.cols_spec() == self.camera_spec().sensor_spec().cols_spec(),
        ensures
            r matches Ok(e) ==> e.orientation.wf() && cand_loss_spec(
                self.camera_spec().optic_spec(),
                self.camera_spec().sensor_spec(),
                self.model_spec().solar_spec(),
                image.pixels_spec(),
                e.orientation,
            ) == Some(e.loss as int),
            r matches Ok(e) ==> match cand_loss_spec(
                self.camera_spec().optic_spec(),
                self.camera_spec().sensor_spec(),
                self.model_spec().solar_spec(),
                image.pixels_spec(),
                *initial,
            ) {
                Some(l0) => e.loss as int <= l0,
                None => false,
            },
            r matches Ok(e) ==> no_better_neighbor(
                self.camera_spec().optic_spec(),
                self.camera_spec().sensor_spec(),
                self.model_spec().solar_spec(),
                image.pixels_spec(),
                self.step_spec(),
                e,
            ) || reached_by_small_step(
                self.camera_spec().optic_spec(),
                self.camera_spec().sensor_spec(),
                self.model_spec().solar_spec(),
                image.pixels_spec(),
                self.step_spec(),
                self.threshold_spec(),
                e,
            ),
            cand_loss_spec(
                self.camera_spec().optic_spec(),
                self.camera_spec().sensor_spec(),
                self.model_spec().solar_spec(),
                image.pixels_spec(),
                *initial,
            ) is None ==> r == Err::<Estimate, Error>(
                Error::FailedToConverge {
                    iterations: 0,
                    threshold_sq_ud: self.threshold_spec() as u64,
                    achieved_sq_ud: u64::MAX,
                },
            ),
            r matches Err(e) ==> (e matches Error::FailedToConverge {
                iterations,
                threshold_sq_ud,
                achieved_sq_ud,
            } && threshold_sq_ud == self.threshold_spec() && (iterations
                == self.max_iterations_spec() || iterations == 0)),
            (cand_loss_spec(
                self.camera_spec().optic_spec(),
                self.camera_spec().sensor_spec(),
                self.model_spec().solar_spec(),
                image.pixels_spec(),
                *initial,
            ) is Some && r is Err) ==> (r matches Err(Error::FailedToConverge {
                iterations,
                threshold_sq_ud,
                achieved_sq_ud,
            }) && iterations == self.max_iterations_spec() && (self.max_iterations_spec() > 0
                ==> achieved_sq_ud > self.threshold_spec()) && match cand_loss_spec(
                self.camera_spec().optic_spec(),
                self.camera_spec().sensor_spec(),
                self.model_spec().solar_spec(),
                image.pixels_spec(),
                *initial,
            ) {
                Some(l0) => l0 >= self.max_iterations_spec() * (self.threshold_spec() + 1),
                None => false,
            }),
    {
        let pm = PatternMatch::new(self.camera, self.model, self.max_iterations);
        let mut current: Orientation = *initial;
        let mut current_loss: u64 = match pm.candidate_loss(image, initial) {
            Some(l) => l,
            None => {
                return Err(
                    Error::FailedToConverge {
                        iterations: 0,
                        threshold_sq_ud: self.convergence_threshold,
                        achieved_sq_ud: u64::MAX,
                    },
                );
            },
        };
        let mut achieved: u64 = u64::MAX;
        let mut it: usize = 0;
        while it < self.max_iterations
            invariant
                self.wf(),
                image.wf(),
                initial.wf(),
                image.rows_spec() == self.camera_spec().sensor_spec().rows_spec(),
                image.cols_spec() == self.camera_spec().sensor_spec().cols_spec(),
                pm.camera_spec() == self.camera_spec(),
                pm.model_spec() == self.model_spec(),
                pm.wf(),
                it <= self.max_iterations_spec(),
                current.wf(),
                cand_loss_spec(
                    self.camera_spec().optic_spec(),
                    self.camera_spec().sensor_spec(),
                    self.model_spec().solar_spec(),
                    image.pixels_spec(),
                    current,
                ) == Some(current_loss as int),
                match cand_loss_spec(
                    self.camera_spec().optic_spec(),
                    self.camera_spec().sensor_spec(),
                    self.model_spec().solar_spec(),
                    image.pixels_spec(),
                    *initial,
                ) {
                    Some(l0) => current_loss as int <= l0 - it * (self.threshold_spec() + 1),
                    None => false,
                },
                it > 0 ==> achieved > self.threshold_spec(),
            decreases self.max_iterations_spec() - it,
        {
            let step = self.step_ud;
            let mut best_neighbor: Option<Estimate> = None;
            let ghost mut best_axis: int = 0;
            let mut axis: usize = 0;
            while axis < 6
                invariant
                    self.wf(),
                    image.wf(),
                    image.rows_spec() == self.camera_spec().sensor_spec().rows_spec(),
                    image.cols_spec() == self.camera_spec().sensor_spec().cols_spec(),
                    pm.camera_spec() == self.camera_spec(),
                    pm.model_spec() == self.model_spec(),
                    pm.wf(),
                    current.wf(),
                    axis <= 6,
                    0 < step <= 90_000_000,
                    step == self.step_spec(),
                    best_neighbor matches Some(e) ==> e.orientation.wf() && cand_loss_spec(
                        self.camera_spec().optic_spec(),
                        self.camera_spec().sensor_spec(),
                        self.model_spec().solar_spec(),
                        image.pixels_spec(),
                        e.orientation,
                    ) == Some(e.loss as int),
                    best_neighbor matches Some(e) ==> 0 <= best_axis < axis as int
                        && e.orientation == step_neighbor(current, step as int, best_axis),
                    best_neighbor is None ==> forall|ax: int|
                        0 <= ax < axis as int ==> cand_loss_spec(
                            self.camera_spec().optic_spec(),
                            self.camera_spec().sensor_spec(),
                            self.model_spec().solar_spec(),
                            image.pixels_spec(),
                            #[trigger] step_neighbor(current, step as int, ax),
                        ) is None,
                    best_neighbor matches Some(e) ==> forall|ax: int|
                        0 <= ax < axis as int ==> match cand_loss_spec(
                            self.camera_spec().optic_spec(),
                            self.camera_spec().sensor_spec(),
                            self.model_spec().solar_spec(),
                            image.pixels_spec(),
                            #[trigger] step_neighbor(current, step as int, ax),
                        ) {
                            Some(l) => l >= e.loss,
                            None => true,
                        },
                decreases 6 - axis,
            {
                let neighbor = if axis == 0 {
                    Self::shifted(&current, step, 0, 0)
                } else if axis == 1 {
                    Self::shifted(&current, -step, 0, 0)
                } else if axis == 2 {
                    Self::shifted(&current, 0, step, 0)
                } else if axis == 3 {
                    Self::shifted(&current, 0, -step, 0)
                } else if axis == 4 {
                    Self::shifted(&current, 0, 0, step)
                } else {
                    Self::shifted(&current, 0, 0, -step)
                };
                proof {
                    assert(neighbor == step_neighbor(current, step as int, axis as int));
                }
                if let Some(l) = pm.candidate_loss(image, &neighbor) {
                    let replace = match &best_neighbor {
                        None => true,
                        Some(b) => l < b.loss,
                    };
                    if replace {
                        best_neighbor = Some(Estimate { orientation: neighbor, loss: l });
                        proof {
                            best_axis = axis as int;
                        }
                    }
                }
                axis = axis + 1;
            }
            match best_neighbor {
                Some(b) => {
                    if b.loss < current_loss {
                        let ghost previous = current;
                        let ghost previous_loss = current_loss;
                        achieved = current_loss - b.loss;
                        current = b.orientation;
                        current_loss = b.loss;
                        if achieved <= self.convergence_threshold {
                            proof {
                                let e = Estimate { orientation: current, loss: current_loss };
                                assert(step_neighbor(previous, step as int, best_axis)
                                    == e.orientation);
                                assert(reached_by_small_step(
                                    self.camera_spec().optic_spec(),
                                    self.camera_spec().sensor_spec(),
                                    self.model_spec().solar_spec(),
                                    image.pixels_spec(),
                                    self.step_spec(),
                                    self.threshold_spec(),
                                    e,
                                ));
                            }
                            return Ok(Estimate { orientation: current, loss: current_loss });
                        }
                        proof {
                            lemma_budget_step(it as int, self.threshold_spec());
                        }
                    } else {
                        proof {
                            let e = Estimate { orientation: current, loss: current_loss };
                            assert forall|ax: int| 0 <= ax < 6 implies match cand_loss_spec(
                                self.camera_spec().optic_spec(),
                                self.camera_spec().sensor_spec(),
                                self.model_spec().solar_spec(),
                                image.pixels_spec(),
                                #[trigger] step_neighbor(e.orientation, step as int, ax),
                            ) {
                                Some(l) => l >= e.loss,
                                None => true,
                            } by {
                                assert(step_neighbor(e.orientation, step as int, ax)
                                    == step_neighbor(current, step as int, ax));
                            }
                        }
                        return Ok(Estimate { orientation: current, loss: current_loss });
                    }
                },
                None => {
                    proof {
                        let e = Estimate { orientation: current, loss: current_loss };
                        assert forall|ax: int| 0 <= ax < 6 implies match cand_loss_spec(
                            self.camera_spec().optic_spec(),
                            self.camera_spec().sensor_spec(),
                            self.model_spec().solar_spec(),
                            image.pixels_spec(),
                            #[trigger] step_neighbor(e.orientation, step as int, ax),
                        ) {
                            Some(l) => l >= e.loss,
                            None => true,
                        } by {
                            assert(step_neighbor(e.orientation, step as int, ax)
                                == step_neighbor(current, step as int, ax));
                        }
                    }
                    return Ok(Estimate { orientation: current, loss: current_loss });
                },
            }
            it = it + 1;
        }
        Err(
            Error::FailedToConverge {
                iterations: self.max_iterations,
                threshold_sq_ud: self.convergence_threshold,
                achieved_sq_ud: achieved,
            },
        )
    }
}

/// Spending one more iteration that improves the loss by more than the
/// threshold lowers the remaining budget by one threshold-plus-one.
proof fn lemma_budget_step(it: int, threshold: int)
    requires
        it >= 0,
    ensures
        (it + 1) * (threshold + 1) == it * (threshold + 1) + (threshold + 1),
{
    assert((it + 1) * (threshold + 1) == it * (threshold + 1) + (threshold + 1))
        by (nonlinear_arith);
}

/// Clamps an angle in microdegrees into one full turn of zero.
fn clamp_turn(a: i64) -> (r: i64)
    requires
        -450_000_000 <= a <= 450_000_000,
    ensures
        r == clamp_turn_spec(a as int),
        -360_000_000 <= r <= 360_000_000,
{
    if a > 360_000_000 {
        360_000_000
    } else if a < -360_000_000 {
        -360_000_000
    } else {
        a
    }
}

/// Whether a measured sensor-frame cell is exactly the simulated cell
/// carried into the sensor frame, anchored at the zenith position
/// `(zx, zy)`: the same position and degree, with the per-pixel offset
/// added to a simulated angle that lies in the polarization range.
pub open spec fn sensor_cell_of_sim(
    c: Option<Ray<SensorFrame>>,
    s: Option<(int, int, int, int)>,
    zx: int,
    zy: int,
) -> bool {
    match s {
        None => c is None,
        Some((sa, sd, sx, sy)) => c matches Some(r) && r.x_spec() == sx && r.y_spec() == sy
            && r.dop_spec() == sd && r.aop_spec() == wrap_aop(sa + offset_angle(sx, sy, zx, zy))
            && -90_000_000 <= sa <= 90_000_000,
    }
}

/// Whether a measured image is, pixel for pixel, the simulation at
/// orientation `o` carried into the sensor frame with `o`'s own zenith
/// anchor: the image a camera at `o` would ideally measure.
pub open spec fn measured_from_simulation<O: Optic>(
    optic: O,
    sensor: ImageSensor,
    solar: Bearing,
    img: Seq<Option<Ray<SensorFrame>>>,
    o: Orientation,
) -> bool {
    let m = rot_of(o);
    let mt = rot_transpose(m);
    let zx = optic.forward_x_spec(zenith_polar_spec(mt), zenith_azimuth_spec(mt));
    let zy = optic.forward_y_spec(zenith_polar_spec(mt), zenith_azimuth_spec(mt));
    forall|k: int|
        0 <= k < img.len() ==> sensor_cell_of_sim(
            #[trigger] img[k],
            sim_cell_spec(optic, sensor, m, solar, k / sensor.cols_spec(), k % sensor.cols_spec()),
            zx,
            zy,
        )
}

/// On an image that is its own simulation carried into the sensor
/// frame, every pixel's weighted error vanishes: carrying the angle
/// back to the global frame undoes the offset exactly, up to the
/// identification of the two quarter-turn boundary values, and the
/// wrapped difference of identified angles is zero.
proof fn lemma_self_image_err_zero<O: Optic>(
    optic: O,
    sensor: ImageSensor,
    solar: Bearing,
    img: Seq<Option<Ray<SensorFrame>>>,
    o: Orientation,
    n: int,
)
    requires
        measured_from_simulation(optic, sensor, solar, img, o),
        n <= img.len(),
    ensures
        sum_err(
            optic,
            sensor,
            rot_of(o),
            solar,
            img,
            optic.forward_x_spec(
                zenith_polar_spec(rot_transpose(rot_of(o))),
                zenith_azimuth_spec(rot_transpose(rot_of(o))),
            ),
            optic.forward_y_spec(
                zenith_polar_spec(rot_transpose(rot_of(o))),
                zenith_azimuth_spec(rot_transpose(rot_of(o))),
            ),
            n,
        ) == 0,
    decreases n,
{
    let m = rot_of(o);
    let mt = rot_transpose(m);
    let zx = optic.forward_x_spec(zenith_polar_spec(mt), zenith_azimuth_spec(mt));
    let zy = optic.forward_y_spec(zenith_polar_spec(mt), zenith_azimuth_spec(mt));
    if n <= 0 {
    } else {
        lemma_self_image_err_zero(optic, sensor, solar, img, o, n - 1);
        let sc = sim_cell_spec(
            optic,
            sensor,
            m,
            solar,
            (n - 1) / sensor.cols_spec(),
            (n - 1) % sensor.cols_spec(),
        );
        match (img[n - 1], sc) {
            (Some(mray), Some(s)) => {
                let off = offset_angle(s.2, s.3, zx, zy);
                crate::aop::lemma_frame_round_trip(s.0, -off);
                crate::angle::lemma_wrap_aop_range(s.0 + off);
                let mg = measured_aop_global(mray, zx, zy);
                assert(mg == wrap_aop(wrap_aop(s.0 + off) - off));
                assert(crate::aop::aop_eq(mg, s.0));
                let d = wrap_aop(mg - s.0);
                if mg == s.0 {
                    assert(wrap_aop(0) == 0);
                } else {
                    assert(mg - s.0 == 180_000_000 || mg - s.0 == -180_000_000);
                    assert(wrap_aop(180_000_000) == wrap_aop(0));
                    assert(wrap_aop(-180_000_000) == wrap_aop(0));
                    assert(wrap_aop(0) == 0);
                }
                assert(d == 0);
                assert(mray.dop_spec() * d * d == 0) by (nonlinear_arith)
                    requires
                        d == 0,
                ;
            },
            _ => {
            },
        }
    }
}

/// On the solar estimation problem the truth is optimal: an image that
/// is exactly the simulation at orientation `o`, carried into the
/// sensor frame, scores a loss of zero at candidate `o`. Together with
/// the minimality that `estimate_candidates` ensures, a candidate set
/// containing `o` therefore yields an estimate whose loss is zero.
///
/// The weight hypothesis rules out skies with nothing to compare: when
/// every overlapping pixel is unpolarized or below the horizon, no
/// candidate at all can be scored.
pub proof fn lemma_estimator_recovers_ground_truth<O: Optic>(
    optic: O,
    sensor: ImageSensor,
    solar: Bearing,
    img: Seq<Option<Ray<SensorFrame>>>,
    o: Orientation,
)
    requires
        measured_from_simulation(optic, sensor, solar, img, o),
        zenith_polar_spec(rot_transpose(rot_of(o))) > 90_000_000,
        sum_weight(optic, sensor, rot_of(o), solar, img, img.len() as int) > 0,
    ensures
        cand_loss_spec(optic, sensor, solar, img, o) == Some(0int),
{
    reveal(cand_loss_spec);
    lemma_self_image_err_zero(optic, sensor, solar, img, o, img.len() as int);
    let ws = sum_weight(optic, sensor, rot_of(o), solar, img, img.len() as int);
    vstd::arithmetic::div_mod::lemma_basic_div(0, ws);
}

/// One step of both sums stays within its per-pixel bound.
proof fn lemma_sum_step_bounds(k: int)
    requires
        k >= 0,
    ensures
        (k + 1) * 1_000_000 == k * 1_000_000 + 1_000_000,
        (k + 1) * 8_100_000_000_000_000_000_000 == k * 8_100_000_000_000_000_000_000
            + 8_100_000_000_000_000_000_000,
{
    assert((k + 1) * 1_000_000 == k * 1_000_000 + 1_000_000) by (nonlinear_arith);
    assert((k + 1) * 8_100_000_000_000_000_000_000 == k * 8_100_000_000_000_000_000_000
        + 8_100_000_000_000_000_000_000) by (nonlinear_arith);
}

/// Both sums are non-negative, and the weighted error is at most the
/// largest possible squared difference times the total weight.
pub proof fn lemma_sum_err_bounded<O: Optic>(
    optic: O,
    sensor: ImageSensor,
    m: crate::rotation::Rot3,
    solar: Bearing,
    img: Seq<Option<Ray<SensorFrame>>>,
    zx: int,
    zy: int,
    n: int,
)
    requires
        forall|k: int|
            0 <= k < img.len() ==> ((#[trigger] img[k]) matches Some(ray) ==> ray.wf()),
        n <= img.len(),
    ensures
        0 <= sum_weight(optic, sensor, m, solar, img, n),
        0 <= sum_err(optic, sensor, m, solar, img, zx, zy, n) <= 8_100_000_000_000_000
            * sum_weight(optic, sensor, m, solar, img, n),
    decreases n,
{
    if n <= 0 {
    } else {
        lemma_sum_err_bounded(optic, sensor, m, solar, img, zx, zy, n - 1);
        let sc = sim_cell_spec(
            optic,
            sensor,
            m,
            solar,
            (n - 1) / sensor.cols_spec(),
            (n - 1) % sensor.cols_spec(),
        );
        let w = pair_weight(img[n - 1], sc);
        let e = pair_err(img[n - 1], sc, zx, zy);
        match (img[n - 1], sc) {
            (Some(mray), Some(s)) => {
                let d = wrap_aop(measured_aop_global(mray, zx, zy) - s.0);
                lemma_wrap_aop_range(measured_aop_global(mray, zx, zy) - s.0);
                assert(0 <= mray.dop_spec() * d * d <= 8_100_000_000_000_000 * mray.dop_spec())
                    by (nonlinear_arith)
                    requires
                        -90_000_000 <= d <= 90_000_000,
                        0 <= mray.dop_spec() <= 1_000_000,
                ;
            },
            _ => {
            },
        }
        assert(8_100_000_000_000_000 * (sum_weight(optic, sensor, m, solar, img, n - 1) + w)
            == 8_100_000_000_000_000 * sum_weight(optic, sensor, m, solar, img, n - 1)
            + 8_100_000_000_000_000 * w) by (nonlinear_arith);
    }
}

} // verus!
