//! Optics: mapping positions on the sensor plane to ray directions in
//! the camera body frame and back.

use crate::sensor::{ImageSensor, PixelCoordinate, SensorCoordinate};
use crate::trig::{
    atan2_spec, atan2_ud, cos_spec, cos_ud, is_isqrt, isqrt_of, isqrt_u128,
    lemma_atan2_range, lemma_cos_back_hemisphere, lemma_sin_range, sin_spec, sin_ud,
};
use crate::model::div_trig_scale;
use vstd::prelude::*;

verus! {

/// The direction of a ray in the camera body frame: the polar angle
/// from the optical axis and the azimuth around it, in microdegrees.
///
/// Rays that strike the sensor from in front of the lens have a polar
/// angle beyond a quarter turn.
#[derive(Clone, Copy, Debug, PartialEq, Eq, Structural)]
pub struct RayDirection {
    polar_ud: i64,
    azimuth_ud: i64,
}

impl RayDirection {
    /// The polar angle from the optical axis, in microdegrees.
    pub closed spec fn polar_spec(&self) -> int {
        self.polar_ud as int
    }

    /// The azimuth around the optical axis, in microdegrees.
    pub closed spec fn azimuth_spec(&self) -> int {
        self.azimuth_ud as int
    }

    /// The polar angle lies between zero and a half turn, the azimuth
    /// within a half turn of the x axis.
    pub open spec fn wf(&self) -> bool {
        0 <= self.polar_spec() <= 180_000_000 && -180_000_000 < self.azimuth_spec() <= 180_000_000
    }

    /// Creates a direction from a polar angle and an azimuth in
    /// microdegrees. Succeeds exactly when both lie in range.
    pub fn from_angles(polar_ud: i64, azimuth_ud: i64) -> (r: Option<Self>)
        ensures
            r is Some <==> 0 <= polar_ud <= 180_000_000 && -180_000_000 < azimuth_ud
                <= 180_000_000,
            r matches Some(d) ==> d.polar_spec() == polar_ud && d.azimuth_spec() == azimuth_ud
                && d.wf(),
    {
        if 0 <= polar_ud && polar_ud <= 180_000_000 && -180_000_000 < azimuth_ud && azimuth_ud
            <= 180_000_000 {
            Some(Self { polar_ud, azimuth_ud })
        } else {
            None
        }
    }

    /// The polar angle from the optical axis, in microdegrees.
    pub fn polar(&self) -> (r: i64)
        ensures
            r == self.polar_spec(),
    {
        self.polar_ud
    }

    /// The azimuth around the optical axis, in microdegrees.
    pub fn azimuth(&self) -> (r: i64)
        ensures
            r == self.azimuth_spec(),
    {
        self.azimuth_ud
    }
}

/// A camera optic: two inverse operations between positions on the
/// sensor plane and ray directions in the body frame.
///
/// The trait leaves room for other optic models; each implementation
/// pins both operations to its own spec functions.
pub trait Optic {
    /// Whether the optic's parameters are in range.
    spec fn wf(&self) -> bool;

    /// The polar angle of the ray through a sensor position.
    spec fn backward_polar_spec(&self, x: int, y: int) -> int;

    /// The azimuth of the ray through a sensor position.
    spec fn backward_azimuth_spec(&self, x: int, y: int) -> int;

    /// The x position struck by a ray from a direction.
    spec fn forward_x_spec(&self, polar: int, azimuth: int) -> int;

    /// The y position struck by a ray from a direction.
    spec fn forward_y_spec(&self, polar: int, azimuth: int) -> int;

    /// Traces the ray that strikes the sensor at `coord` back through
    /// the optic to its direction in the body frame.
    fn trace_backward(&self, coord: &SensorCoordinate) -> (r: RayDirection)
        requires
            self.wf(),
            -1_000_000_000_000_000 <= coord.x_spec() <= 1_000_000_000_000_000,
            -1_000_000_000_000_000 <= coord.y_spec() <= 1_000_000_000_000_000,
        ensures
            r.wf(),
            90_000_000 <= r.polar_spec() <= 180_000_000,
            r.polar_spec() == self.backward_polar_spec(coord.x_spec(), coord.y_spec()),
            r.azimuth_spec() == self.backward_azimuth_spec(coord.x_spec(), coord.y_spec()),
    ;

    /// Traces a ray from a direction strictly behind the sensor plane
    /// forward through the optic to the position it strikes.
    fn trace_forward(&self, dir: &RayDirection) -> (r: SensorCoordinate)
        requires
            self.wf(),
            dir.wf(),
            90_000_000 < dir.polar_spec(),
        ensures
            r.x_spec() == self.forward_x_spec(dir.polar_spec(), dir.azimuth_spec()),
            r.y_spec() == self.forward_y_spec(dir.polar_spec(), dir.azimuth_spec()),
            -2_000_000_000_000_000_000 <= r.x_spec() <= 2_000_000_000_000_000_000,
            -2_000_000_000_000_000_000 <= r.y_spec() <= 2_000_000_000_000_000_000,
    ;
}

/// The distance from the optical centre at which a ray from the given
/// polar angle strikes the sensor plane of a pinhole optic with the
/// given focal length in half-nanometres.
pub open spec fn pinhole_radius(focal_hnm: int, polar: int) -> int {
    (focal_hnm * sin_spec(polar)) / (-cos_spec(polar))
}

/// An ideal pinhole optic, described by its focal length alone.
#[derive(Clone, Copy, Debug, PartialEq, Eq, Structural)]
pub struct PinholeOptic {
    focal_hnm: i64,
}

impl PinholeOptic {
    /// The focal length in half-nanometres.
    pub closed spec fn focal_spec(&self) -> int {
        self.focal_hnm as int
    }

    /// Creates a pinhole optic from a focal length in nanometres.
    ///
    /// Succeeds exactly on positive focal lengths of at most a metre:
    /// a pinhole model needs a positive focal length.
    pub fn from_focal_length(focal_nm: i64) -> (r: Option<Self>)
        ensures
            r is Some <==> 0 < focal_nm <= 1_000_000_000,
            r matches Some(o) ==> o.focal_spec() == 2 * focal_nm && o.wf(),
    {
        if 0 < focal_nm && focal_nm <= 1_000_000_000 {
            Some(Self { focal_hnm: 2 * focal_nm })
        } else {
            None
        }
    }

    /// The focal length in half-nanometres.
    pub fn focal_length(&self) -> (r: i64)
        ensures
            r == self.focal_spec(),
    {
        self.focal_hnm
    }
}

impl Optic for PinholeOptic {
    /// The focal length is positive and at most a metre.
    open spec fn wf(&self) -> bool {
        0 < self.focal_spec() <= 2_000_000_000
    }

    /// The polar angle of the direction `(x, y, -focal)`: the angle of
    /// the point `(-focal, radius)` where `radius` is the distance of
    /// the sensor position from the optical centre.
    open spec fn backward_polar_spec(&self, x: int, y: int) -> int {
        atan2_spec(isqrt_of(x * x + y * y), -self.focal_spec())
    }

    /// The azimuth of the sensor position around the optical centre.
    open spec fn backward_azimuth_spec(&self, x: int, y: int) -> int {
        atan2_spec(y, x)
    }

    /// The struck position along x: the strike radius towards the
    /// direction's azimuth.
    open spec fn forward_x_spec(&self, polar: int, azimuth: int) -> int {
        div_trig_scale(pinhole_radius(self.focal_spec(), polar) * cos_spec(azimuth))
    }

    /// The struck position along y: the strike radius towards the
    /// direction's azimuth.
    open spec fn forward_y_spec(&self, polar: int, azimuth: int) -> int {
        div_trig_scale(pinhole_radius(self.focal_spec(), polar) * sin_spec(azimuth))
    }

    fn trace_backward(&self, coord: &SensorCoordinate) -> (r: RayDirection) {
        let x = coord.x();
        let y = coord.y();
        let azimuth = atan2_ud(y, x);
        proof {
            assert(0 <= (x as int) * (x as int) <= 1_000_000_000_000_000_000_000_000_000_000
                && 0 <= (y as int) * (y as int) <= 1_000_000_000_000_000_000_000_000_000_000)
                by (nonlinear_arith)
                requires
                    -1_000_000_000_000_000 <= x as int <= 1_000_000_000_000_000,
                    -1_000_000_000_000_000 <= y as int <= 1_000_000_000_000_000,
            ;
        }
        let sq: u128 = ((x as i128) * (x as i128) + (y as i128) * (y as i128)) as u128;
        let radius: u64 = isqrt_u128(sq);
        proof {
            assert(radius as int <= 2_000_000_000_000_000) by (nonlinear_arith)
                requires
                    is_isqrt(sq as int, radius as int),
                    sq as int <= 2_000_000_000_000_000_000_000_000_000_000,
            ;
            lemma_atan2_range(radius as int, -self.focal_spec());
        }
        let polar = atan2_ud(radius as i64, -self.focal_hnm);
        proof {
            lemma_backward_polar_hemisphere(radius as int, -self.focal_spec());
        }
        RayDirection { polar_ud: polar, azimuth_ud: azimuth }
    }

    fn trace_forward(&self, dir: &RayDirection) -> (r: SensorCoordinate) {
        let polar = dir.polar();
        let azimuth = dir.azimuth();
        let sin_p = sin_ud(polar);
        let cos_p = cos_ud(polar);
        proof {
            lemma_cos_back_hemisphere(polar as int);
            lemma_sin_back_hemisphere(polar as int);
        }
        proof {
            assert(0 <= (self.focal_spec()) * (sin_p as int)
                <= 2_000_000_000_000_000_000) by (nonlinear_arith)
                requires
                    0 < self.focal_spec() <= 2_000_000_000,
                    0 <= sin_p as int <= 1_000_000_000,
            ;
        }
        let num: i128 = (self.focal_hnm as i128) * (sin_p as i128);
        proof {
            vstd::arithmetic::div_mod::lemma_div_pos_is_pos(
                self.focal_spec() * (sin_p as int),
                -(cos_p as int),
            );
            vstd::arithmetic::div_mod::lemma_div_is_ordered_by_denominator(
                self.focal_spec() * (sin_p as int),
                1,
                -(cos_p as int),
            );
        }
        let radius: i64 = ((num as u128) / ((-cos_p) as u128)) as i64;
        let cos_a = cos_ud(azimuth);
        let sin_a = sin_ud(azimuth);
        let x: i64 = mul_project(radius, cos_a);
        let y: i64 = mul_project(radius, sin_a);
        SensorCoordinate::new(x, y)
    }
}

/// The round trip through a pinhole optic, on the sensor's x axis: a
/// position with no y component traces to a direction of azimuth zero,
/// and tracing that direction forward lands back on the axis exactly,
/// at the optic's own strike radius for the traced polar angle.
///
/// This is the exactly provable core of the pinhole round trip. The
/// strike radius itself comes from the rational sine, cosine and
/// arctangent, so how closely it returns to `x` is a question of their
/// accuracy, not of the geometry; a test covers that tolerance.
pub proof fn lemma_pinhole_round_trip_on_axis(optic: PinholeOptic, x: int)
    requires
        optic.wf(),
        0 <= x,
    ensures
        optic.backward_azimuth_spec(x, 0) == 0,
        optic.forward_y_spec(optic.backward_polar_spec(x, 0), optic.backward_azimuth_spec(x, 0))
            == 0,
        optic.forward_x_spec(optic.backward_polar_spec(x, 0), optic.backward_azimuth_spec(x, 0))
            == pinhole_radius(optic.focal_spec(), optic.backward_polar_spec(x, 0)),
{
    lemma_atan2_range(0, x);
    let polar = optic.backward_polar_spec(x, 0);
    let radius = pinhole_radius(optic.focal_spec(), polar);
    crate::trig::lemma_sin_range(0);
    assert(crate::trig::reduce_turn(0) == 0);
    assert(sin_spec(0) == 0);
    assert(cos_spec(0) == 1_000_000_000) by {
        assert(crate::trig::reduce_turn(90_000_000) == 90_000_000);
        crate::trig::lemma_sin_range(90_000_000);
    }
    assert(radius * sin_spec(0) == 0) by (nonlinear_arith)
        requires
            sin_spec(0) == 0,
    ;
    assert(div_trig_scale(0) == 0) by {
        vstd::arithmetic::div_mod::lemma_basic_div(0, 1_000_000_000);
    }
    assert(div_trig_scale(radius * cos_spec(0)) == radius) by {
        assert(radius * 1_000_000_000 == 1_000_000_000 * radius) by (nonlinear_arith);
        vstd::arithmetic::div_mod::lemma_div_multiples_vanish(radius, 1_000_000_000);
        if radius < 0 {
            assert(-(radius * 1_000_000_000) == 1_000_000_000 * (-radius)) by (nonlinear_arith);
            vstd::arithmetic::div_mod::lemma_div_multiples_vanish(-radius, 1_000_000_000);
        }
    }
}

/// At the optical centre the pinhole round trip is exactly the
/// identity: the centre traces to the straight-back direction, whose
/// strike radius is exactly zero.
pub proof fn lemma_pinhole_round_trip_centre(optic: PinholeOptic)
    requires
        optic.wf(),
    ensures
        optic.backward_polar_spec(0, 0) == 180_000_000,
        optic.forward_x_spec(optic.backward_polar_spec(0, 0), optic.backward_azimuth_spec(0, 0))
            == 0,
        optic.forward_y_spec(optic.backward_polar_spec(0, 0), optic.backward_azimuth_spec(0, 0))
            == 0,
{
    crate::trig::lemma_isqrt_exists(0);
    crate::trig::lemma_isqrt_unique(0, 0, isqrt_of(0));
    assert(is_isqrt(0, 0)) by (nonlinear_arith);
    lemma_atan2_range(isqrt_of(0), -optic.focal_spec());
    let polar = optic.backward_polar_spec(0, 0);
    assert(polar == 180_000_000);
    assert(sin_spec(180_000_000) == 0) by {
        assert(crate::trig::reduce_turn(180_000_000) == crate::trig::reduce_turn(-180_000_000));
        assert(crate::trig::reduce_turn(-180_000_000) == -180_000_000);
        crate::trig::lemma_sin_range(180_000_000);
    }
    lemma_cos_back_hemisphere(180_000_000);
    assert(optic.focal_spec() * sin_spec(180_000_000) == 0) by (nonlinear_arith)
        requires
            sin_spec(180_000_000) == 0,
    ;
    assert(pinhole_radius(optic.focal_spec(), 180_000_000) == 0) by {
        vstd::arithmetic::div_mod::lemma_basic_div(0, -cos_spec(180_000_000));
    }
    lemma_pinhole_round_trip_on_axis(optic, 0);
}

/// A non-negative radius against a negative x axis always lands in the
/// back hemisphere.
pub proof fn lemma_backward_polar_hemisphere(radius: int, neg_focal: int)
    requires
        radius >= 0,
        neg_focal < 0,
    ensures
        90_000_000 <= atan2_spec(radius, neg_focal) <= 180_000_000,
{
    lemma_atan2_range(radius, neg_focal);
    if radius == 0 {
    } else {
        let ax = -neg_focal;
        if radius <= ax {
            crate::trig::lemma_slope_in_unit(radius, ax);
            crate::trig::lemma_atan_ratio_range((radius * 1_000_000_000) / ax);
        } else {
            crate::trig::lemma_slope_in_unit(ax, radius);
            crate::trig::lemma_atan_ratio_range((ax * 1_000_000_000) / radius);
        }
    }
}

/// In the back hemisphere the sine stays in the non-negative unit
/// range.
pub proof fn lemma_sin_back_hemisphere(p: int)
    requires
        90_000_000 < p <= 180_000_000,
    ensures
        0 <= sin_spec(p) <= 1_000_000_000,
{
    crate::trig::lemma_sin_range(p);
    if p < 180_000_000 {
        assert(crate::trig::reduce_turn(p) == p);
        crate::trig::lemma_bhaskara_range(p);
    } else {
        assert(crate::trig::reduce_turn(p) == crate::trig::reduce_turn(p - 360_000_000));
        assert(crate::trig::reduce_turn(p - 360_000_000) == p - 360_000_000);
        crate::trig::lemma_bhaskara_range(360_000_000 - p);
    }
}

/// The projection of a bounded radius by a scaled trigonometric value
/// stays within wide arithmetic.

/// A radius projected towards an azimuth: the product with a scaled
/// sine or cosine, rescaled back, truncating towards zero.
fn mul_project(radius: i64, t: i64) -> (r: i64)
    requires
        0 <= radius,
        -1_000_000_000 <= t <= 1_000_000_000,
    ensures
        r == div_trig_scale(radius as int * t as int),
        -radius <= r <= radius,
{
    proof {
        lemma_radius_projection_bounds_i64(radius as int, t as int);
    }
    let wide: i128 = (radius as i128) * (t as i128);
    if wide >= 0 {
        proof {
            vstd::arithmetic::div_mod::lemma_div_pos_is_pos(wide as int, 1_000_000_000);
            vstd::arithmetic::div_mod::lemma_div_is_ordered(
                wide as int,
                radius as int * 1_000_000_000,
                1_000_000_000,
            );
            vstd::arithmetic::div_mod::lemma_div_multiples_vanish(radius as int, 1_000_000_000);
        }
        ((wide as u128) / 1_000_000_000) as i64
    } else {
        proof {
            vstd::arithmetic::div_mod::lemma_div_pos_is_pos(-(wide as int), 1_000_000_000);
            vstd::arithmetic::div_mod::lemma_div_is_ordered(
                -(wide as int),
                radius as int * 1_000_000_000,
                1_000_000_000,
            );
            vstd::arithmetic::div_mod::lemma_div_multiples_vanish(radius as int, 1_000_000_000);
        }
        -((((-wide) as u128) / 1_000_000_000) as i64)
    }
}

/// The product of an i64 radius and a scaled trigonometric value stays
/// within wide arithmetic and within the radius after rescaling.
proof fn lemma_radius_projection_bounds_i64(radius: int, t: int)
    requires
        0 <= radius <= 9_223_372_036_854_775_807,
        -1_000_000_000 <= t <= 1_000_000_000,
    ensures
        -radius * 1_000_000_000 <= radius * t <= radius * 1_000_000_000,
{
    assert(-radius * 1_000_000_000 <= radius * t <= radius * 1_000_000_000) by (nonlinear_arith)
        requires
            0 <= radius,
            -1_000_000_000 <= t <= 1_000_000_000,
    ;
}

/// A camera: an optic composed with an image sensor.
#[derive(Clone, Copy)]
pub struct Camera<O> {
    optic: O,
    sensor: ImageSensor,
}

impl<O: Optic> Camera<O> {
    /// The optic.
    pub closed spec fn optic_spec(&self) -> O {
        self.optic
    }

    /// The sensor.
    pub closed spec fn sensor_spec(&self) -> ImageSensor {
        self.sensor
    }

    /// Both halves are in range.
    pub open spec fn wf(&self) -> bool {
        self.optic_spec().wf() && self.sensor_spec().wf()
    }

    /// Composes an optic with an image sensor.
    pub fn new(optic: O, sensor: ImageSensor) -> (r: Self)
        requires
            optic.wf(),
            sensor.wf(),
        ensures
            r.optic_spec() == optic,
            r.sensor_spec() == sensor,
            r.wf(),
    {
        Self { optic, sensor }
    }

    /// The optic.
    pub fn optic(&self) -> (r: &O)
        ensures
            r == self.optic_spec(),
    {
        &self.optic
    }

    /// The sensor.
    pub fn sensor(&self) -> (r: &ImageSensor)
        ensures
            r == self.sensor_spec(),
    {
        &self.sensor
    }

    /// The number of pixel rows.
    pub fn rows(&self) -> (r: u16)
        ensures
            r == self.sensor_spec().rows_spec(),
    {
        self.sensor.rows()
    }

    /// The number of pixel columns.
    pub fn cols(&self) -> (r: u16)
        ensures
            r == self.sensor_spec().cols_spec(),
    {
        self.sensor.cols()
    }

    /// All pixels of the sensor in row-major order.
    pub fn pixels(&self) -> (r: Vec<PixelCoordinate>)
        requires
            self.wf(),
        ensures
            r@.len() == self.sensor_spec().rows_spec() * self.sensor_spec().cols_spec(),
            forall|k: int|
                0 <= k < r@.len() ==> (#[trigger] r@[k]).row_spec() == k
                    / self.sensor_spec().cols_spec() && r@[k].col_spec() == k
                    % self.sensor_spec().cols_spec() && r@[k].row_spec()
                    < self.sensor_spec().rows_spec() && r@[k].col_spec()
                    < self.sensor_spec().cols_spec(),
    {
        let rows = self.sensor.rows();
        let cols = self.sensor.cols();
        let mut out: Vec<PixelCoordinate> = Vec::new();
        let mut row: u16 = 0;
        while row < rows
            invariant
                0 < cols <= 65535,
                rows <= 65535,
                row <= rows,
                cols == self.sensor_spec().cols_spec(),
                rows == self.sensor_spec().rows_spec(),
                out@.len() == row * cols,
                forall|k: int|
                    0 <= k < out@.len() ==> (#[trigger] out@[k]).row_spec() == k / cols as int
                        && out@[k].col_spec() == k % cols as int && out@[k].row_spec()
                        < rows as int && out@[k].col_spec() < cols as int,
            decreases rows - row,
        {
            let mut col: u16 = 0;
            while col < cols
                invariant
                    0 < cols <= 65535,
                    rows <= 65535,
                    row < rows,
                    col <= cols,
                    cols == self.sensor_spec().cols_spec(),
                    rows == self.sensor_spec().rows_spec(),
                    out@.len() == row * cols + col,
                    forall|k: int|
                        0 <= k < out@.len() ==> (#[trigger] out@[k]).row_spec() == k / cols as int
                            && out@[k].col_spec() == k % cols as int && out@[k].row_spec()
                            < rows as int && out@[k].col_spec() < cols as int,
                decreases cols - col,
            {
                proof {
                    assert(row as int * cols as int + col as int <= 4_294_836_224)
                        by (nonlinear_arith)
                        requires
                            0 <= row as int <= 65534,
                            (row as int) < (rows as int),
                            rows as int <= 65535,
                            0 <= col as int <= 65534,
                            (col as int) < (cols as int),
                            cols as int <= 65535,
                    ;
                    vstd::arithmetic::div_mod::lemma_fundamental_div_mod_converse(
                        row as int * cols as int + col as int,
                        cols as int,
                        row as int,
                        col as int,
                    );
                }
                out.push(PixelCoordinate::new(row as usize, col as usize));
                col = col + 1;
            }
            row = row + 1;
            proof {
                assert((row - 1) as int * cols as int + cols as int == row as int * cols as int)
                    by (nonlinear_arith);
            }
        }
        out
    }

    /// Traces the ray striking the centre of a pixel back through the
    /// optic, or `None` when the pixel lies outside the sensor.
    pub fn trace_from_pixel(&self, pixel: &PixelCoordinate) -> (r: Option<RayDirection>)
        requires
            self.wf(),
        ensures
            r is Some <==> pixel.row_spec() < self.sensor_spec().rows_spec() && pixel.col_spec()
                < self.sensor_spec().cols_spec(),
            r matches Some(d) ==> {
                let x = crate::sensor::centre_spec(
                    self.sensor_spec().pitch_spec(),
                    pixel.col_spec(),
                    self.sensor_spec().cols_spec(),
                );
                let y = crate::sensor::centre_spec(
                    self.sensor_spec().pitch_spec(),
                    pixel.row_spec(),
                    self.sensor_spec().rows_spec(),
                );
                &&& d.wf()
                &&& 90_000_000 <= d.polar_spec() <= 180_000_000
                &&& d.polar_spec() == self.optic_spec().backward_polar_spec(x, y)
                &&& d.azimuth_spec() == self.optic_spec().backward_azimuth_spec(x, y)
            },
    {
        let coord = match self.sensor.sensor_from_pixel(pixel) {
            Some(c) => c,
            None => {
                return None;
            },
        };
        proof {
            pixel.lemma_nonneg();
            crate::sensor::lemma_centre_bounded(
                self.sensor_spec().pitch_spec(),
                pixel.col_spec(),
                self.sensor_spec().cols_spec(),
            );
            crate::sensor::lemma_centre_bounded(
                self.sensor_spec().pitch_spec(),
                pixel.row_spec(),
                self.sensor_spec().rows_spec(),
            );
        }
        Some(self.optic.trace_backward(&coord))
    }
}

} // verus!
