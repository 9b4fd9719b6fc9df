//! Typed errors returned by the library.

use vstd::prelude::*;

verus! {

/// Everything that can go wrong while building or deriving the library's
/// values. All fallible operations return one of these variants rather
/// than panicking.
#[derive(Clone, Copy, Debug, PartialEq, Eq, Structural)]
pub enum Error {
    /// An angle of polarization outside [-90e6, 90e6] microdegrees was
    /// handed to a strict constructor. Carries the offending angle.
    AngleOutOfBounds { angle_ud: i64 },
    /// A degree of polarization outside [0, 1e6] parts per million was
    /// handed to a strict constructor or derived from a Stokes vector.
    /// Carries the offending degree.
    DegreeOutOfBounds { degree_ppm: i64 },
    /// A Stokes vector with no total intensity cannot yield a degree of
    /// polarization.
    ZeroIntensity,
    /// A raw intensity image must have even width and height so that the
    /// polarizer mosaic tiles it exactly.
    OddImageDimensions { width: usize, height: usize },
    /// Two rays mapped to the same pixel while assembling a ray image.
    /// Carries the contested pixel.
    AmbiguousRay { row: usize, col: usize },
    /// A ray's sensor coordinate mapped outside the sensor while
    /// assembling a ray image.
    OutOfBoundsRay,
    /// A search range whose lower bound does not lie below its upper
    /// bound spans no candidates.
    EmptyRange,
    /// The iterative refinement ran out of iterations before its
    /// convergence metric fell to the threshold. Carries the iteration
    /// count, the threshold asked for and the metric last achieved.
    FailedToConverge { iterations: usize, threshold_sq_ud: u64, achieved_sq_ud: u64 },
}

} // verus!
