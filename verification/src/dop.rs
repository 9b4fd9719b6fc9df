//! Degree of polarization.

use crate::error::Error;
use vstd::prelude::*;

verus! {

/// Describes the intensity ratio of polarized light in a ray.
///
/// The degree is carried in parts per million and always lies in
/// [0, 1e6] after construction.
#[derive(Clone, Copy, Debug, PartialEq, Eq, Structural)]
pub struct Dop {
    degree_ppm: i64,
}

impl Dop {
    /// The degree in parts per million.
    pub closed spec fn view(&self) -> int {
        self.degree_ppm as int
    }

    /// Every constructed degree lies in [0, 1e6] parts per million.
    pub open spec fn wf(&self) -> bool {
        0 <= self@ <= 1_000_000
    }

    /// Creates a new `Dop` from a degree in parts per million.
    ///
    /// Succeeds exactly on degrees in [0, 1e6]; anything else is
    /// reported as out of bounds.
    pub fn new(degree_ppm: i64) -> (r: Result<Self, Error>)
        ensures
            0 <= degree_ppm <= 1_000_000 <==> r is Ok,
            r matches Ok(d) ==> d@ == degree_ppm && d.wf(),
            r matches Err(e) ==> e == (Error::DegreeOutOfBounds { degree_ppm }),
    {
        if 0 <= degree_ppm && degree_ppm <= 1_000_000 {
            Ok(Self { degree_ppm })
        } else {
            Err(Error::DegreeOutOfBounds { degree_ppm })
        }
    }

    /// A completely unpolarized degree.
    pub fn zero() -> (r: Self)
        ensures
            r@ == 0,
            r.wf(),
    {
        Self { degree_ppm: 0 }
    }

    /// Creates a new `Dop`, clamping the degree into [0, 1e6].
    pub fn clamped(degree_ppm: i64) -> (r: Self)
        ensures
            r.wf(),
            r@ == if degree_ppm < 0 {
                0int
            } else if degree_ppm > 1_000_000 {
                1_000_000int
            } else {
                degree_ppm as int
            },
    {
        if degree_ppm < 0 {
            Self { degree_ppm: 0 }
        } else if degree_ppm > 1_000_000 {
            Self { degree_ppm: 1_000_000 }
        } else {
            Self { degree_ppm }
        }
    }

    /// Returns a new `Dop` clamped between zero and `max_ppm`.
    ///
    /// `max_ppm` must itself be a valid degree.
    pub fn clamp(self, max_ppm: i64) -> (r: Self)
        requires
            0 <= max_ppm <= 1_000_000,
            self.wf(),
        ensures
            r.wf(),
            r@ == if self@ > max_ppm { max_ppm as int } else { self@ },
    {
        if self.degree_ppm > max_ppm {
            Self { degree_ppm: max_ppm }
        } else {
            self
        }
    }

    /// The sum of two degrees, clamped back into range.
    pub fn add(self, other: Self) -> (r: Self)
        requires
            self.wf(),
            other.wf(),
        ensures
            r.wf(),
            r@ == if self@ + other@ > 1_000_000 { 1_000_000int } else { self@ + other@ },
    {
        Self::clamped(self.degree_ppm + other.degree_ppm)
    }

    /// The difference of two degrees, clamped back into range.
    pub fn sub(self, other: Self) -> (r: Self)
        requires
            self.wf(),
            other.wf(),
        ensures
            r.wf(),
            r@ == if self@ - other@ < 0 { 0int } else { self@ - other@ },
    {
        Self::clamped(self.degree_ppm - other.degree_ppm)
    }

    /// The degree scaled by a ratio in parts per million, clamped back
    /// into range.
    pub fn scale(self, factor_ppm: i64) -> (r: Self)
        requires
            self.wf(),
            0 <= factor_ppm,
        ensures
            r.wf(),
            r@ == if self@ * factor_ppm / 1_000_000 > 1_000_000 {
                1_000_000int
            } else {
                self@ * factor_ppm / 1_000_000
            },
    {
        proof {
            assert(self@ * factor_ppm <= 1_000_000 * 0x7fff_ffff_ffff_ffff) by (nonlinear_arith)
                requires
                    0 <= self@ <= 1_000_000,
                    0 <= factor_ppm <= 0x7fff_ffff_ffff_ffff,
            ;
        }
        let wide: u128 = (self.degree_ppm as u128) * (factor_ppm as u128);
        let scaled: u128 = wide / 1_000_000;
        if scaled > 1_000_000 {
            Self { degree_ppm: 1_000_000 }
        } else {
            Self { degree_ppm: scaled as i64 }
        }
    }

    /// The degree in parts per million.
    pub fn into_inner(self) -> (r: i64)
        ensures
            r == self@,
    {
        self.degree_ppm
    }
}

} // verus!
