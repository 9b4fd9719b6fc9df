//! Stokes vectors: the linear polarization state of a ray.

use crate::aop::Aop;
use crate::dop::Dop;
use crate::error::Error;
use crate::ray::RayFrame;
use crate::trig::{atan2_spec, atan2_ud, is_isqrt, isqrt_of, isqrt_u64, lemma_atan2_range};
use vstd::prelude::*;

verus! {

/// The angle of polarization derived from the second and third Stokes
/// components: half the angle of the point `(s1, s2)`, in microdegrees,
/// halved towards zero.
pub open spec fn stokes_aop(s1: int, s2: int) -> int {
    let full = atan2_spec(s2, s1);
    if full >= 0 {
        full / 2
    } else {
        -((-full) / 2)
    }
}

/// The degree of polarization derived from a Stokes vector with positive
/// total intensity, in parts per million: the magnitude of the polarized
/// part over the total intensity.
pub open spec fn stokes_dop(s0: int, s1: int, s2: int) -> int {
    isqrt_of(s1 * s1 + s2 * s2) * 1_000_000 / s0
}

/// Describes the linear polarization of a ray.
///
/// The three components share one arbitrary intensity unit; both derived
/// quantities depend only on their ratios.
#[derive(Clone, Copy, Debug)]
pub struct StokesVec<Frame: RayFrame> {
    s0: i64,
    s1: i64,
    s2: i64,
    frame: Frame,
}

impl<Frame: RayFrame> StokesVec<Frame> {
    /// The total intensity.
    pub closed spec fn s0_spec(&self) -> int {
        self.s0 as int
    }

    /// The 0-minus-90-degree intensity difference.
    pub closed spec fn s1_spec(&self) -> int {
        self.s1 as int
    }

    /// The 45-minus-135-degree intensity difference.
    pub closed spec fn s2_spec(&self) -> int {
        self.s2 as int
    }

    /// The components stay small enough that squaring and scaling them
    /// cannot overflow.
    pub open spec fn wf(&self) -> bool {
        -2_000_000_000 <= self.s0_spec() <= 2_000_000_000 && -2_000_000_000 <= self.s1_spec()
            <= 2_000_000_000 && -2_000_000_000 <= self.s2_spec() <= 2_000_000_000
    }

    /// Creates a Stokes vector from its three components.
    pub fn new(s0: i64, s1: i64, s2: i64) -> (r: Self)
        requires
            -2_000_000_000 <= s0 <= 2_000_000_000,
            -2_000_000_000 <= s1 <= 2_000_000_000,
            -2_000_000_000 <= s2 <= 2_000_000_000,
        ensures
            r.s0_spec() == s0,
            r.s1_spec() == s1,
            r.s2_spec() == s2,
            r.wf(),
    {
        Self { s0, s1, s2, frame: Frame::tag() }
    }

    /// Computes the angle of polarization of the ray: half the angle of
    /// the point `(s1, s2)`. Always succeeds; a vector with no polarized
    /// part yields an angle of zero.
    pub fn aop(&self) -> (r: Result<Aop<Frame>, Error>)
        requires
            self.wf(),
        ensures
            r is Ok,
            r matches Ok(a) ==> a@ == stokes_aop(self.s1_spec(), self.s2_spec()) && a.wf(),
    {
        proof {
            lemma_atan2_range(self.s2_spec(), self.s1_spec());
        }
        let full = atan2_ud(self.s2, self.s1);
        let half: i64 = if full >= 0 {
            full / 2
        } else {
            -((-full) / 2)
        };
        match Aop::from_angle(half) {
            Ok(a) => Ok(a),
            Err(e) => Err(e),
        }
    }

    /// Computes the degree of polarization of the ray.
    ///
    /// Fails with `ZeroIntensity` when the total intensity is not
    /// positive, and reports a degree above one — possible for measured
    /// data whose polarized part outweighs its total — as out of bounds
    /// rather than clamping it silently.
    pub fn dop(&self) -> (r: Result<Dop, Error>)
        requires
            self.wf(),
        ensures
            self.s0_spec() <= 0 ==> r == Err::<Dop, Error>(Error::ZeroIntensity),
            self.s0_spec() > 0 && stokes_dop(self.s0_spec(), self.s1_spec(), self.s2_spec())
                <= 1_000_000 ==> (r matches Ok(d) && d@ == stokes_dop(
                self.s0_spec(),
                self.s1_spec(),
                self.s2_spec(),
            ) && d.wf()),
            self.s0_spec() > 0 && stokes_dop(self.s0_spec(), self.s1_spec(), self.s2_spec())
                > 1_000_000 ==> r == Err::<Dop, Error>(
                Error::DegreeOutOfBounds {
                    degree_ppm: stokes_dop(self.s0_spec(), self.s1_spec(), self.s2_spec()) as i64,
                },
            ),
    {
        if self.s0 <= 0 {
            return Err(Error::ZeroIntensity);
        }
        proof {
            assert(0 <= self.s1_spec() * self.s1_spec() <= 4_000_000_000_000_000_000)
                by (nonlinear_arith)
                requires
                    -2_000_000_000 <= self.s1_spec() <= 2_000_000_000,
            ;
            assert(0 <= self.s2_spec() * self.s2_spec() <= 4_000_000_000_000_000_000)
                by (nonlinear_arith)
                requires
                    -2_000_000_000 <= self.s2_spec() <= 2_000_000_000,
            ;
        }
        let mag2: u64 = ((self.s1 as i128 * self.s1 as i128) + (self.s2 as i128
            * self.s2 as i128)) as u64;
        let mag: u64 = isqrt_u64(mag2);
        let ratio: u64 = mag * 1_000_000 / (self.s0 as u64);
        proof {
            vstd::arithmetic::div_mod::lemma_div_pos_is_pos(
                mag as int * 1_000_000,
                self.s0_spec(),
            );
        }
        if ratio > 1_000_000 {
            Err(Error::DegreeOutOfBounds { degree_ppm: ratio as i64 })
        } else {
            match Dop::new(ratio as i64) {
                Ok(d) => Ok(d),
                Err(e) => Err(e),
            }
        }
    }
}

} // verus!
