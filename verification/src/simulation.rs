//! Simulating the ray image a camera would measure under a given sky.
//!
//! A simulation composes a camera, an attitude and a sky model: for each
//! pixel it traces the ray direction through the optic, rotates it into
//! the local east-north-up frame, and asks the sky model for the
//! polarization state at that bearing.

use crate::bearing::Bearing;
use crate::image::RayImage;
use crate::model::{div_trig_scale, sky_aop_spec, sky_dop_spec, SkyModel};
use crate::optic::{Camera, Optic, RayDirection};
use crate::ray::{GlobalFrame, Ray};
use crate::rotation::{row_apply, Orientation, Rot3, Vec3};
use crate::sensor::{centre_spec, ImageSensor, PixelCoordinate, SensorCoordinate};
use crate::trig::{
    atan2_spec, atan2_ud, cos_spec, cos_ud, is_isqrt, isqrt_of, isqrt_u128,
    lemma_atan2_range, lemma_atan2_right_halfplane, sin_spec, sin_ud,
};
use vstd::prelude::*;

verus! {

/// The direction towards the sky, in the camera body frame and scaled
/// by 1e9, of the ray with the given polar angle and azimuth: the
/// opposite of the direction the light travels.
pub open spec fn sky_dir_body(polar: int, azimuth: int) -> (int, int, int) {
    (
        -div_trig_scale(sin_spec(polar) * cos_spec(azimuth)),
        -div_trig_scale(sin_spec(polar) * sin_spec(azimuth)),
        -cos_spec(polar),
    )
}

/// The azimuth, clockwise from north, of a direction in the local
/// east-north-up frame.
pub open spec fn enu_azimuth(vx: int, vy: int) -> int {
    atan2_spec(vx, vy)
}

/// The elevation above the horizon of a direction in the local
/// east-north-up frame.
pub open spec fn enu_elevation(vx: int, vy: int, vz: int) -> int {
    atan2_spec(vz, isqrt_of(vx * vx + vy * vy))
}

/// What one pixel of a simulated image holds: the bearing the pixel
/// sees, through the optic and the body-to-local rotation `m`, and the
/// sky model's polarization state there. `None` when the pixel lies
/// outside the sensor or sees below the horizon.
pub open spec fn sim_cell_spec<O: Optic>(
    optic: O,
    sensor: ImageSensor,
    m: Rot3,
    solar: Bearing,
    row: int,
    col: int,
) -> Option<(int, int, int, int)> {
    if !(0 <= row < sensor.rows_spec() && 0 <= col < sensor.cols_spec()) {
        None
    } else {
        let x = centre_spec(sensor.pitch_spec(), col, sensor.cols_spec());
        let y = centre_spec(sensor.pitch_spec(), row, sensor.rows_spec());
        let polar = optic.backward_polar_spec(x, y);
        let azimuth = optic.backward_azimuth_spec(x, y);
        let (bx, by, bz) = sky_dir_body(polar, azimuth);
        let vx = row_apply(m.xx as int, m.xy as int, m.xz as int, bx, by, bz);
        let vy = row_apply(m.yx as int, m.yy as int, m.yz as int, bx, by, bz);
        let vz = row_apply(m.zx as int, m.zy as int, m.zz as int, bx, by, bz);
        let el = enu_elevation(vx, vy, vz);
        if el < 0 {
            None
        } else {
            let az = enu_azimuth(vx, vy);
            Some(
                (
                    sky_aop_spec(solar.azimuth_spec(), solar.elevation_spec(), az, el),
                    sky_dop_spec(solar.azimuth_spec(), solar.elevation_spec(), az, el),
                    x,
                    y,
                ),
            )
        }
    }
}

/// Whether a cell of a simulated ray image holds exactly what the
/// simulation's spec says it holds.
pub open spec fn cell_simulated(c: Option<Ray<GlobalFrame>>, s: Option<(int, int, int, int)>) -> bool {
    match s {
        None => c is None,
        Some((aop, dop, x, y)) => c matches Some(ray) && ray.aop_spec() == aop && ray.dop_spec()
            == dop && ray.x_spec() == x && ray.y_spec() == y,
    }
}

/// A camera with an attitude viewing a modelled sky.
pub struct Simulation<O> {
    camera: Camera<O>,
    body_to_enu: Rot3,
    enu_to_body: Rot3,
    model: SkyModel,
}

impl<O: Optic> Simulation<O> {
    /// The camera.
    pub closed spec fn camera_spec(&self) -> Camera<O> {
        self.camera
    }

    /// The rotation carrying body coordinates to local coordinates.
    pub closed spec fn body_to_enu_spec(&self) -> Rot3 {
        self.body_to_enu
    }

    /// The rotation carrying local coordinates to body coordinates.
    pub closed spec fn enu_to_body_spec(&self) -> Rot3 {
        self.enu_to_body
    }

    /// The sky model.
    pub closed spec fn model_spec(&self) -> SkyModel {
        self.model
    }

    /// Camera, matrices and model are all in range, and the two
    /// matrices are each other's transpose.
    pub open spec fn wf(&self) -> bool {
        self.camera_spec().wf() && self.body_to_enu_spec().wf() && self.model_spec().wf()
            && self.enu_to_body_spec() == rot_transpose(self.body_to_enu_spec())
    }

    /// Creates a simulation of `camera` held at `orientation` under the
    /// sky described by `model`.
    pub fn new(camera: Camera<O>, orientation: &Orientation, model: SkyModel) -> (r: Self)
        requires
            camera.wf(),
            orientation.wf(),
            model.wf(),
        ensures
            r.wf(),
            r.camera_spec() == camera,
            r.model_spec() == model,
            r.body_to_enu_spec().is_rotation_of(*orientation),
            r.body_to_enu_spec() == crate::rotation::rot_of(*orientation),
    {
        let m = Rot3::from_orientation(orientation);
        let t = m.transpose();
        Self { camera, body_to_enu: m, enu_to_body: t, model }
    }

    /// The camera.
    pub fn camera(&self) -> (r: &Camera<O>)
        ensures
            r == self.camera_spec(),
    {
        &self.camera
    }

    /// The sky model.
    pub fn model(&self) -> (r: &SkyModel)
        ensures
            r == self.model_spec(),
    {
        &self.model
    }

    /// Simulates the ray arriving at one pixel: `None` when the pixel
    /// lies outside the sensor or sees below the horizon.
    pub fn ray(&self, pixel: &PixelCoordinate) -> (r: Option<Ray<GlobalFrame>>)
        requires
            self.wf(),
        ensures
            cell_simulated(
                r,
                sim_cell_spec(
                    self.camera_spec().optic_spec(),
                    self.camera_spec().sensor_spec(),
                    self.body_to_enu_spec(),
                    self.model_spec().solar_spec(),
                    pixel.row_spec(),
                    pixel.col_spec(),
                ),
            ),
            r matches Some(ray) ==> ray.wf(),
    {
        proof {
            pixel.lemma_nonneg();
        }
        let dir = match self.camera.trace_from_pixel(pixel) {
            Some(d) => d,
            None => {
                return None;
            },
        };
        let sin_p = sin_ud(dir.polar());
        let cos_p = cos_ud(dir.polar());
        let cos_a = cos_ud(dir.azimuth());
        let sin_a = sin_ud(dir.azimuth());
        let b = Vec3 {
            x: -crate::rotation::mul2(sin_p, cos_a),
            y: -crate::rotation::mul2(sin_p, sin_a),
            z: -cos_p,
        };
        let v = self.body_to_enu.apply(&b);
        proof {
            lemma_sq_sum_bounded(v.x as int, v.y as int);
        }
        let rxy: u64 = isqrt_u128(
            ((v.x as i128) * (v.x as i128) + (v.y as i128) * (v.y as i128)) as u128,
        );
        proof {
            assert(rxy as int <= 9_000_000_000_000_000) by (nonlinear_arith)
                requires
                    is_isqrt(
                        (v.x as int) * (v.x as int) + (v.y as int) * (v.y as int),
                        rxy as int,
                    ),
                    (v.x as int) * (v.x as int) + (v.y as int) * (v.y as int)
                        <= 72_000_000_000_000_000_000_000_000_000_000,
            ;
            lemma_atan2_right_halfplane(v.z as int, rxy as int);
        }
        let el = atan2_ud(v.z, rxy as i64);
        if el < 0 {
            return None;
        }
        proof {
            lemma_atan2_range(v.x as int, v.y as int);
        }
        let az = atan2_ud(v.x, v.y);
        let bearing = match Bearing::from_angles(az, el) {
            Some(b) => b,
            None => {
                return None;
            },
        };
        let aop = match self.model.aop(&bearing) {
            Some(a) => a,
            None => {
                return None;
            },
        };
        let dop = match self.model.dop(&bearing) {
            Some(d) => d,
            None => {
                return None;
            },
        };
        let coord = match self.camera.sensor().sensor_from_pixel(pixel) {
            Some(c) => c,
            None => {
                return None;
            },
        };
        proof {
            crate::sensor::lemma_centre_bounded(
                self.camera_spec().sensor_spec().pitch_spec(),
                pixel.col_spec(),
                self.camera_spec().sensor_spec().cols_spec(),
            );
            crate::sensor::lemma_centre_bounded(
                self.camera_spec().sensor_spec().pitch_spec(),
                pixel.row_spec(),
                self.camera_spec().sensor_spec().rows_spec(),
            );
        }
        Some(Ray::new(coord, aop, dop))
    }

    /// Simulates the whole image: one cell per pixel of the sensor, in
    /// row-major order.
    pub fn ray_image(&self) -> (r: RayImage<GlobalFrame>)
        requires
            self.wf(),
        ensures
            r.wf(),
            r.rows_spec() == self.camera_spec().sensor_spec().rows_spec(),
            r.cols_spec() == self.camera_spec().sensor_spec().cols_spec(),
            forall|k: int|
                0 <= k < r.pixels_spec().len() ==> cell_simulated(
                    #[trigger] r.pixels_spec()[k],
                    sim_cell_spec(
                        self.camera_spec().optic_spec(),
                        self.camera_spec().sensor_spec(),
                        self.body_to_enu_spec(),
                        self.model_spec().solar_spec(),
                        k / self.camera_spec().sensor_spec().cols_spec(),
                        k % self.camera_spec().sensor_spec().cols_spec(),
                    ),
                ),
    {
        let rows: u16 = self.camera.rows();
        let cols: u16 = self.camera.cols();
        let count: usize = self.camera.sensor().pixel_count();
        let mut cells: Vec<Option<Ray<GlobalFrame>>> = Vec::new();
        let mut k: usize = 0;
        while k < count
            invariant
                self.wf(),
                rows == self.camera_spec().sensor_spec().rows_spec(),
                cols == self.camera_spec().sensor_spec().cols_spec(),
                0 < cols,
                count == rows * cols,
                k <= count,
                cells@.len() == k,
                forall|j: int|
                    0 <= j < k ==> cell_simulated(
                        #[trigger] cells@[j],
                        sim_cell_spec(
                            self.camera_spec().optic_spec(),
                            self.camera_spec().sensor_spec(),
                            self.body_to_enu_spec(),
                            self.model_spec().solar_spec(),
                            j / cols as int,
                            j % cols as int,
                        ),
                    ),
                forall|j: int|
                    0 <= j < k ==> ((#[trigger] cells@[j]) matches Some(ray) ==> ray.wf()),
            decreases count - k,
        {
            let row: usize = k / (cols as usize);
            let col: usize = k % (cols as usize);
            let cell = self.ray(&PixelCoordinate::new(row, col));
            cells.push(cell);
            k = k + 1;
        }
        RayImage::<GlobalFrame>::from_pixels(cells, rows, cols)
    }

    /// The position on the sensor plane onto which the zenith — the
    /// upward direction of the local frame — projects, or `None` when
    /// the zenith does not lie squarely in front of the lens.
    pub fn zenith_coord(&self) -> (r: Option<SensorCoordinate>)
        requires
            self.wf(),
        ensures
            r matches Some(c) ==> {
                let z = zenith_dir_spec(self.enu_to_body_spec());
                let polar = zenith_polar_spec(self.enu_to_body_spec());
                &&& polar > 90_000_000
                &&& c.x_spec() == self.camera_spec().optic_spec().forward_x_spec(
                    polar,
                    zenith_azimuth_spec(self.enu_to_body_spec()),
                )
                &&& c.y_spec() == self.camera_spec().optic_spec().forward_y_spec(
                    polar,
                    zenith_azimuth_spec(self.enu_to_body_spec()),
                )
                &&& -2_000_000_000_000_000_000 <= c.x_spec() <= 2_000_000_000_000_000_000
                &&& -2_000_000_000_000_000_000 <= c.y_spec() <= 2_000_000_000_000_000_000
            },
            r is None <==> zenith_polar_spec(self.enu_to_body_spec()) <= 90_000_000,
    {
        let up = Vec3 { x: 0, y: 0, z: 1_000_000_000 };
        let v = self.enu_to_body.apply(&up);
        proof {
            lemma_sq_sum_bounded(v.x as int, v.y as int);
        }
        let rxy: u64 = isqrt_u128(
            ((v.x as i128) * (v.x as i128) + (v.y as i128) * (v.y as i128)) as u128,
        );
        proof {
            assert(rxy as int <= 9_000_000_000_000_000) by (nonlinear_arith)
                requires
                    is_isqrt(
                        (v.x as int) * (v.x as int) + (v.y as int) * (v.y as int),
                        rxy as int,
                    ),
                    (v.x as int) * (v.x as int) + (v.y as int) * (v.y as int)
                        <= 72_000_000_000_000_000_000_000_000_000_000,
            ;
            lemma_atan2_range(rxy as int, -(v.z as int));
        }
        let polar = atan2_ud(rxy as i64, -v.z);
        if polar <= 90_000_000 {
            return None;
        }
        proof {
            lemma_atan2_range(-(v.y as int), -(v.x as int));
        }
        let azimuth = atan2_ud(-v.y, -v.x);
        let dir = match RayDirection::from_angles(polar, azimuth) {
            Some(d) => d,
            None => {
                return None;
            },
        };
        Some(self.camera.optic().trace_forward(&dir))
    }
}

/// The transpose of a rotation matrix.
pub open spec fn rot_transpose(m: Rot3) -> Rot3 {
    Rot3 {
        xx: m.xx,
        xy: m.yx,
        xz: m.zx,
        yx: m.xy,
        yy: m.yy,
        yz: m.zy,
        zx: m.xz,
        zy: m.yz,
        zz: m.zz,
    }
}

/// The upward direction of the local frame carried into the body frame
/// by the local-to-body rotation.
pub open spec fn zenith_dir_spec(m: Rot3) -> (int, int, int) {
    (
        row_apply(m.xx as int, m.xy as int, m.xz as int, 0, 0, 1_000_000_000),
        row_apply(m.yx as int, m.yy as int, m.yz as int, 0, 0, 1_000_000_000),
        row_apply(m.zx as int, m.zy as int, m.zz as int, 0, 0, 1_000_000_000),
    )
}

/// The polar angle of the ray direction that carries zenith light onto
/// the sensor: the angle of the light's travel direction, which is the
/// opposite of the zenith direction in the body frame.
pub open spec fn zenith_polar_spec(m: Rot3) -> int {
    let (vx, vy, vz) = zenith_dir_spec(m);
    atan2_spec(isqrt_of(vx * vx + vy * vy), -vz)
}

/// The azimuth of the ray direction that carries zenith light onto the
/// sensor.
pub open spec fn zenith_azimuth_spec(m: Rot3) -> int {
    let (vx, vy, vz) = zenith_dir_spec(m);
    atan2_spec(-vy, -vx)
}

/// The sum of the squares of two rotated components stays within wide
/// arithmetic.
proof fn lemma_sq_sum_bounded(a: int, b: int)
    requires
        -6_000_000_000_000_000 <= a <= 6_000_000_000_000_000,
        -6_000_000_000_000_000 <= b <= 6_000_000_000_000_000,
    ensures
        0 <= a * a <= 36_000_000_000_000_000_000_000_000_000_000,
        0 <= b * b <= 36_000_000_000_000_000_000_000_000_000_000,
        0 <= a * a + b * b <= 72_000_000_000_000_000_000_000_000_000_000,
{
    assert(0 <= a * a <= 36_000_000_000_000_000_000_000_000_000_000) by (nonlinear_arith)
        requires
            -6_000_000_000_000_000 <= a <= 6_000_000_000_000_000,
    ;
    assert(0 <= b * b <= 36_000_000_000_000_000_000_000_000_000_000) by (nonlinear_arith)
        requires
            -6_000_000_000_000_000 <= b <= 6_000_000_000_000_000,
    ;
}

} // verus!
