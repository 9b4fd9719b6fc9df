//! Angle of polarization.

use crate::angle::{
    lemma_equiv_add, lemma_equiv_close, lemma_equiv_sym, lemma_equiv_trans, lemma_wrap_aop_equiv,
    lemma_wrap_aop_range, wrap_aop, wrap_aop_ud,
};
use crate::error::Error;
use crate::ray::{GlobalFrame, RayFrame, SensorFrame};
use vstd::prelude::*;

verus! {

/// Whether two stored angles denote the same physical angle of
/// polarization: equal, or both on the quarter-turn boundary, where
/// -90 degrees and +90 degrees are the same physical state.
pub open spec fn aop_eq(a: int, b: int) -> bool {
    a == b || ((a == 90_000_000 || a == -90_000_000) && (b == 90_000_000 || b == -90_000_000))
}

/// Describes the e-vector orientation of a ray, in microdegrees.
///
/// The stored angle always lies in [-90e6, 90e6]; the two endpoints
/// denote the same physical state and compare equal.
#[derive(Clone, Copy, Debug)]
pub struct Aop<Frame: RayFrame> {
    angle_ud: i64,
    frame: Frame,
}

impl<Frame: RayFrame> Aop<Frame> {
    /// The stored angle in microdegrees.
    pub closed spec fn view(&self) -> int {
        self.angle_ud as int
    }

    /// Every constructed angle lies in the closed quarter-turn interval.
    pub open spec fn wf(&self) -> bool {
        -90_000_000 <= self@ <= 90_000_000
    }

    /// Creates a new `Aop` from an angle in microdegrees.
    ///
    /// Succeeds exactly on angles in [-90e6, 90e6]; anything else is
    /// reported as out of bounds.
    pub fn from_angle(angle_ud: i64) -> (r: Result<Self, Error>)
        ensures
            -90_000_000 <= angle_ud <= 90_000_000 <==> r is Ok,
            r matches Ok(a) ==> a@ == angle_ud && a.wf(),
            r matches Err(e) ==> e == (Error::AngleOutOfBounds { angle_ud }),
    {
        if -90_000_000 <= angle_ud && angle_ud <= 90_000_000 {
            Ok(Self { angle_ud, frame: Frame::tag() })
        } else {
            Err(Error::AngleOutOfBounds { angle_ud })
        }
    }

    /// Creates a new `Aop` from any angle in microdegrees, wrapping by
    /// whole half turns until the angle is in range.
    pub fn from_angle_wrapped(angle_ud: i64) -> (r: Self)
        ensures
            r@ == wrap_aop(angle_ud as int),
            r.wf(),
    {
        let wrapped = wrap_aop_ud(angle_ud);
        Self { angle_ud: wrapped, frame: Frame::tag() }
    }

    /// Returns true if `other` lies within `thres_ud` of `self`,
    /// inclusive, measuring the difference around the half-turn period.
    pub fn in_thres(&self, other: &Self, thres_ud: i64) -> (r: bool)
        requires
            self.wf(),
            other.wf(),
        ensures
            r == (vstd::math::abs(wrap_aop(self@ - other@)) <= thres_ud),
    {
        let diff = wrap_aop_ud(self.angle_ud - other.angle_ud);
        let mag = if diff < 0 {
            -diff
        } else {
            diff
        };
        mag <= thres_ud
    }

    /// The wrapped sum of two angles of polarization.
    pub fn add(self, other: Self) -> (r: Self)
        requires
            self.wf(),
            other.wf(),
        ensures
            r@ == wrap_aop(self@ + other@),
            r.wf(),
    {
        Self::from_angle_wrapped(self.angle_ud + other.angle_ud)
    }

    /// The wrapped difference of two angles of polarization.
    pub fn sub(self, other: Self) -> (r: Self)
        requires
            self.wf(),
            other.wf(),
        ensures
            r@ == wrap_aop(self@ - other@),
            r.wf(),
    {
        Self::from_angle_wrapped(self.angle_ud - other.angle_ud)
    }

    /// The angle in microdegrees.
    pub fn into_inner(self) -> (r: i64)
        ensures
            r == self@,
    {
        self.angle_ud
    }
}

impl<Frame: RayFrame> PartialEq for Aop<Frame> {
    /// Angles compare equal when they denote the same physical state:
    /// -90 degrees and +90 degrees are identified.
    fn eq(&self, other: &Self) -> (r: bool) {
        let self_boundary = self.angle_ud == 90_000_000 || self.angle_ud == -90_000_000;
        let other_boundary = other.angle_ud == 90_000_000 || other.angle_ud == -90_000_000;
        if self_boundary && other_boundary {
            true
        } else {
            self.angle_ud == other.angle_ud
        }
    }
}

impl<Frame: RayFrame> vstd::std_specs::cmp::PartialEqSpecImpl for Aop<Frame> {
    open spec fn obeys_eq_spec() -> bool {
        true
    }

    open spec fn eq_spec(&self, other: &Self) -> bool {
        aop_eq(self@, other@)
    }
}

impl Aop<GlobalFrame> {
    /// Transforms the `Aop` from the global frame into the sensor frame
    /// by adding the per-pixel offset angle.
    pub fn into_sensor_frame(self, shift_ud: i64) -> (r: Aop<SensorFrame>)
        requires
            self.wf(),
            -180_000_000 <= shift_ud <= 180_000_000,
        ensures
            r@ == wrap_aop(self@ + shift_ud),
            r.wf(),
    {
        Aop::<SensorFrame>::from_angle_wrapped(self.angle_ud + shift_ud)
    }
}

impl Aop<SensorFrame> {
    /// Transforms the `Aop` from the sensor frame into the global frame
    /// by subtracting the per-pixel offset angle.
    pub fn into_global_frame(self, shift_ud: i64) -> (r: Aop<GlobalFrame>)
        requires
            self.wf(),
            -180_000_000 <= shift_ud <= 180_000_000,
        ensures
            r@ == wrap_aop(self@ - shift_ud),
            r.wf(),
    {
        Aop::<GlobalFrame>::from_angle_wrapped(self.angle_ud - shift_ud)
    }
}

/// Wrapping respects the physical angle: two angles a whole number of
/// half turns apart wrap to values that compare equal, the two
/// quarter-turn boundary values included. In particular a quarter turn
/// and its negation denote one physical state.
pub proof fn lemma_wrapped_congruent(a: int, b: int)
    requires
        crate::angle::aop_equiv(a, b),
    ensures
        aop_eq(wrap_aop(a), wrap_aop(b)),
{
    let wa = wrap_aop(a);
    let wb = wrap_aop(b);
    lemma_wrap_aop_range(a);
    lemma_wrap_aop_range(b);
    lemma_wrap_aop_equiv(a);
    lemma_wrap_aop_equiv(b);
    lemma_equiv_sym(wb, b);
    lemma_equiv_trans(wa, a, b);
    lemma_equiv_trans(wa, b, wb);
    if wa != wb {
        if -180_000_000 < wa - wb < 180_000_000 {
            lemma_equiv_close(wa, wb);
        }
    }
}

/// Wrapping an angle, shifting it, and shifting it back yields the same
/// physical angle it started with: converting a sensor-frame angle to the
/// global frame and back is the identity, up to the identification of the
/// two quarter-turn boundary values.
pub proof fn lemma_frame_round_trip(a: int, shift: int)
    requires
        -90_000_000 <= a <= 90_000_000,
    ensures
        aop_eq(wrap_aop(wrap_aop(a - shift) + shift), a),
{
    let w1 = wrap_aop(a - shift);
    let w2 = wrap_aop(w1 + shift);
    lemma_wrap_aop_range(a - shift);
    lemma_wrap_aop_range(w1 + shift);
    lemma_wrap_aop_equiv(a - shift);
    lemma_wrap_aop_equiv(w1 + shift);
    // w1 is equivalent to a - shift, so w1 + shift is equivalent to a.
    lemma_equiv_add(w1, a - shift, shift, shift);
    crate::angle::lemma_equiv_refl(shift);
    lemma_equiv_trans(w2, w1 + shift, a);
    if w2 != a {
        // Two equivalent values in [-90e6, 90e6] differ by exactly one
        // half turn, which puts both on the boundary.
        if -180_000_000 < w2 - a < 180_000_000 {
            lemma_equiv_close(w2, a);
        }
    }
}

} // verus!
