//! Rays of partially polarized light and the frames their angles are
//! measured in.

use crate::angle::wrap_aop;
use crate::aop::Aop;
use crate::dop::Dop;
use crate::error::Error;
use crate::sensor::SensorCoordinate;
use crate::stokes::{stokes_aop, stokes_dop, StokesVec};
use crate::trig::{atan2_spec, atan2_ud};
use vstd::prelude::*;

verus! {

/// Marker for the reference frame an angle of polarization is measured in.
///
/// Tagging angles and rays with a frame makes it a type error to mix
/// angles measured against different references without an explicit,
/// offset-aware conversion.
pub trait RayFrame: Copy {
    /// The marker value: frames are zero-sized tags with a single value.
    fn tag() -> Self;
}

/// Angles measured against a fixed world axis.
#[derive(Clone, Copy, Debug, PartialEq, Eq, Structural)]
pub struct GlobalFrame;

impl RayFrame for GlobalFrame {
    fn tag() -> Self {
        GlobalFrame
    }
}

/// Angles measured against each pixel's own position on the sensor.
#[derive(Clone, Copy, Debug, PartialEq, Eq, Structural)]
pub struct SensorFrame;

impl RayFrame for SensorFrame {
    fn tag() -> Self {
        SensorFrame
    }
}

/// The angle, in microdegrees, of a ray's position seen from a reference
/// position on the sensor plane: the offset between its sensor-frame and
/// global-frame angles of polarization.
pub open spec fn offset_angle(x: int, y: int, ref_x: int, ref_y: int) -> int {
    atan2_spec(y - ref_y, x - ref_x)
}

/// Describes the angle and degree of polarization for a single ray,
/// together with the position on the sensor plane where it was measured
/// or simulated.
#[derive(Clone, Copy, Debug)]
pub struct Ray<Frame: RayFrame> {
    coord: SensorCoordinate,
    angle: Aop<Frame>,
    degree: Dop,
}

impl<Frame: RayFrame> Ray<Frame> {
    /// The angle of polarization carried by the ray, in microdegrees.
    pub closed spec fn aop_spec(&self) -> int {
        self.angle@
    }

    /// The degree of polarization carried by the ray, in parts per
    /// million.
    pub closed spec fn dop_spec(&self) -> int {
        self.degree@
    }

    /// The position along the column axis, in half-nanometres.
    pub closed spec fn x_spec(&self) -> int {
        self.coord.x_spec()
    }

    /// The position along the row axis, in half-nanometres.
    pub closed spec fn y_spec(&self) -> int {
        self.coord.y_spec()
    }

    /// Both polarization components are in range and the position lies
    /// within a metre of the origin, so that offset angles to any other
    /// on-sensor position cannot overflow.
    pub open spec fn wf(&self) -> bool {
        -90_000_000 <= self.aop_spec() <= 90_000_000 && 0 <= self.dop_spec() <= 1_000_000
            && -2_000_000_000_000_000_000 <= self.x_spec() <= 2_000_000_000_000_000_000
            && -2_000_000_000_000_000_000 <= self.y_spec() <= 2_000_000_000_000_000_000
    }

    /// Creates a new `Ray` from a polarization `angle` and `degree`
    /// measured at `coord`.
    pub fn new(coord: SensorCoordinate, angle: Aop<Frame>, degree: Dop) -> (r: Self)
        requires
            -2_000_000_000_000_000_000 <= coord.x_spec() <= 2_000_000_000_000_000_000,
            -2_000_000_000_000_000_000 <= coord.y_spec() <= 2_000_000_000_000_000_000,
        ensures
            r.aop_spec() == angle@,
            r.dop_spec() == degree@,
            r.x_spec() == coord.x_spec(),
            r.y_spec() == coord.y_spec(),
            angle.wf() && degree.wf() ==> r.wf(),
    {
        Self { coord, angle, degree }
    }

    /// Derives a ray measured at `coord` from a Stokes vector.
    ///
    /// Fails exactly when the degree of polarization cannot be derived:
    /// the total intensity is not positive, or the derived degree lies
    /// above one.
    pub fn from_stokes(coord: SensorCoordinate, stokes: StokesVec<Frame>) -> (r: Result<
        Self,
        Error,
    >)
        requires
            stokes.wf(),
            -2_000_000_000_000_000_000 <= coord.x_spec() <= 2_000_000_000_000_000_000,
            -2_000_000_000_000_000_000 <= coord.y_spec() <= 2_000_000_000_000_000_000,
        ensures
            r is Ok <==> stokes.s0_spec() > 0 && stokes_dop(
                stokes.s0_spec(),
                stokes.s1_spec(),
                stokes.s2_spec(),
            ) <= 1_000_000,
            r matches Ok(ray) ==> ray.wf() && ray.aop_spec() == stokes_aop(
                stokes.s1_spec(),
                stokes.s2_spec(),
            ) && ray.dop_spec() == stokes_dop(
                stokes.s0_spec(),
                stokes.s1_spec(),
                stokes.s2_spec(),
            ) && ray.x_spec() == coord.x_spec() && ray.y_spec() == coord.y_spec(),
    {
        let angle = match stokes.aop() {
            Ok(a) => a,
            Err(e) => {
                return Err(e);
            },
        };
        let degree = match stokes.dop() {
            Ok(d) => d,
            Err(e) => {
                return Err(e);
            },
        };
        Ok(Self::new(coord, angle, degree))
    }

    /// The position where the ray was measured.
    pub fn coord(&self) -> (r: &SensorCoordinate)
        ensures
            r.x_spec() == self.x_spec(),
            r.y_spec() == self.y_spec(),
    {
        &self.coord
    }

    /// The angle of polarization.
    pub fn aop(&self) -> (r: &Aop<Frame>)
        ensures
            r@ == self.aop_spec(),
            self.wf() ==> r.wf(),
    {
        &self.angle
    }

    /// The degree of polarization.
    pub fn dop(&self) -> (r: &Dop)
        ensures
            r@ == self.dop_spec(),
            self.wf() ==> r.wf(),
    {
        &self.degree
    }

    /// The angle of the ray's position as seen from `origin`, in
    /// microdegrees from the column axis.
    fn angle_to(&self, origin: &SensorCoordinate) -> (r: i64)
        requires
            self.wf(),
            -2_000_000_000_000_000_000 <= origin.x_spec() <= 2_000_000_000_000_000_000,
            -2_000_000_000_000_000_000 <= origin.y_spec() <= 2_000_000_000_000_000_000,
        ensures
            r == offset_angle(self.x_spec(), self.y_spec(), origin.x_spec(), origin.y_spec()),
            -180_000_000 < r <= 180_000_000,
    {
        atan2_ud(self.coord.y() - origin.y(), self.coord.x() - origin.x())
    }
}

impl Ray<GlobalFrame> {
    /// Transforms the ray from the global frame into the sensor frame.
    ///
    /// The zenith position anchors the transform: each ray's offset is
    /// the angle of its own position seen from the zenith position, so
    /// the offset is a property of the pixel, not of the image.
    pub fn into_sensor_frame(self, zenith: &SensorCoordinate) -> (r: Ray<SensorFrame>)
        requires
            self.wf(),
            -2_000_000_000_000_000_000 <= zenith.x_spec() <= 2_000_000_000_000_000_000,
            -2_000_000_000_000_000_000 <= zenith.y_spec() <= 2_000_000_000_000_000_000,
        ensures
            r.wf(),
            r.aop_spec() == wrap_aop(
                self.aop_spec() + offset_angle(
                    self.x_spec(),
                    self.y_spec(),
                    zenith.x_spec(),
                    zenith.y_spec(),
                ),
            ),
            r.dop_spec() == self.dop_spec(),
            r.x_spec() == self.x_spec(),
            r.y_spec() == self.y_spec(),
    {
        let offset = self.angle_to(zenith);
        Ray::<SensorFrame>::new(self.coord, self.angle.into_sensor_frame(offset), self.degree)
    }
}

impl Ray<SensorFrame> {
    /// Transforms the ray from the sensor frame into the global frame.
    ///
    /// The zenith position anchors the transform: each ray's offset is
    /// the angle of its own position seen from the zenith position, so
    /// the offset is a property of the pixel, not of the image.
    pub fn into_global_frame(self, zenith: &SensorCoordinate) -> (r: Ray<GlobalFrame>)
        requires
            self.wf(),
            -2_000_000_000_000_000_000 <= zenith.x_spec() <= 2_000_000_000_000_000_000,
            -2_000_000_000_000_000_000 <= zenith.y_spec() <= 2_000_000_000_000_000_000,
        ensures
            r.wf(),
            r.aop_spec() == wrap_aop(
                self.aop_spec() - offset_angle(
                    self.x_spec(),
                    self.y_spec(),
                    zenith.x_spec(),
                    zenith.y_spec(),
                ),
            ),
            r.dop_spec() == self.dop_spec(),
            r.x_spec() == self.x_spec(),
            r.y_spec() == self.y_spec(),
    {
        let offset = self.angle_to(zenith);
        Ray::<GlobalFrame>::new(self.coord, self.angle.into_global_frame(offset), self.degree)
    }
}

} // verus!
