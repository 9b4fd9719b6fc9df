//! Bearings: directions in the local east-north-up frame.

use vstd::prelude::*;

verus! {

/// A direction given as an azimuth, measured clockwise from north, and
/// an elevation above the horizon, both in microdegrees.
///
/// A negative elevation points below the horizon.
#[derive(Clone, Copy, Debug, PartialEq, Eq, Structural)]
pub struct Bearing {
    azimuth_ud: i64,
    elevation_ud: i64,
}

impl Bearing {
    /// The azimuth in microdegrees, clockwise from north.
    pub closed spec fn azimuth_spec(&self) -> int {
        self.azimuth_ud as int
    }

    /// The elevation in microdegrees above the horizon.
    pub closed spec fn elevation_spec(&self) -> int {
        self.elevation_ud as int
    }

    /// The elevation lies within a quarter turn of the horizon, and the
    /// azimuth within two full turns of north, so that differences of
    /// azimuths stay small enough for exact trigonometry.
    pub open spec fn wf(&self) -> bool {
        -90_000_000 <= self.elevation_spec() <= 90_000_000 && -720_000_000 <= self.azimuth_spec()
            <= 720_000_000
    }

    /// Creates a bearing from an azimuth and an elevation in
    /// microdegrees.
    ///
    /// Succeeds exactly when the elevation lies within a quarter turn
    /// of the horizon and the azimuth within two full turns of north.
    pub fn from_angles(azimuth_ud: i64, elevation_ud: i64) -> (r: Option<Self>)
        ensures
            r is Some <==> -90_000_000 <= elevation_ud <= 90_000_000 && -720_000_000 <= azimuth_ud
                <= 720_000_000,
            r matches Some(b) ==> b.azimuth_spec() == azimuth_ud && b.elevation_spec()
                == elevation_ud && b.wf(),
    {
        if -90_000_000 <= elevation_ud && elevation_ud <= 90_000_000 && -720_000_000 <= azimuth_ud
            && azimuth_ud <= 720_000_000 {
            Some(Self { azimuth_ud, elevation_ud })
        } else {
            None
        }
    }

    /// The azimuth in microdegrees, clockwise from north.
    pub fn azimuth(&self) -> (r: i64)
        ensures
            r == self.azimuth_spec(),
    {
        self.azimuth_ud
    }

    /// The elevation in microdegrees above the horizon.
    pub fn elevation(&self) -> (r: i64)
        ensures
            r == self.elevation_spec(),
    {
        self.elevation_ud
    }
}

} // verus!
