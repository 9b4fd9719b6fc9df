//! Predicates over rays, and filtering ray streams with them.

use crate::angle::wrap_aop;
use crate::aop::Aop;
use crate::dop::Dop;
use crate::ray::{Ray, RayFrame};
use vstd::prelude::*;

verus! {

/// A predicate over a ray. Implementors are used with [`RayFilter`].
pub trait RayPredicate<Frame: RayFrame> {
    /// What the predicate means.
    spec fn holds(&self, ray: Ray<Frame>) -> bool;

    /// The predicate's parameters are in range.
    spec fn wf(&self) -> bool;

    /// Decides the predicate on one ray.
    fn eval(&self, ray: &Ray<Frame>) -> (r: bool)
        requires
            self.wf(),
            ray.wf(),
        ensures
            r == self.holds(*ray),
    ;
}

/// A predicate that holds on rays whose angle of polarization lies
/// within a threshold of a centre angle, measured around the half-turn
/// period.
pub struct AopFilter<Frame: RayFrame> {
    center: Aop<Frame>,
    thres_ud: i64,
}

impl<Frame: RayFrame> AopFilter<Frame> {
    /// The centre angle in microdegrees.
    pub closed spec fn center_spec(&self) -> int {
        self.center@
    }

    /// The threshold in microdegrees.
    pub closed spec fn thres_spec(&self) -> int {
        self.thres_ud as int
    }

    /// Creates a predicate selecting rays within `thres_ud` of
    /// `center`.
    pub fn new(center: Aop<Frame>, thres_ud: i64) -> (r: Self)
        requires
            center.wf(),
            0 <= thres_ud,
        ensures
            r.center_spec() == center@,
            r.thres_spec() == thres_ud,
            r.wf(),
    {
        Self { center, thres_ud }
    }
}

impl<Frame: RayFrame> RayPredicate<Frame> for AopFilter<Frame> {
    open spec fn holds(&self, ray: Ray<Frame>) -> bool {
        vstd::math::abs(wrap_aop(self.center_spec() - ray.aop_spec())) <= self.thres_spec()
    }

    open spec fn wf(&self) -> bool {
        -90_000_000 <= self.center_spec() <= 90_000_000 && 0 <= self.thres_spec()
    }

    fn eval(&self, ray: &Ray<Frame>) -> (r: bool) {
        self.center.in_thres(ray.aop(), self.thres_ud)
    }
}

/// A predicate that holds on rays whose degree of polarization is at
/// least a minimum.
pub struct DopFilter {
    min: Dop,
}

impl DopFilter {
    /// The minimum degree in parts per million.
    pub closed spec fn min_spec(&self) -> int {
        self.min@
    }

    /// Creates a predicate selecting rays at least as polarized as
    /// `min`.
    pub fn new(min: Dop) -> (r: Self)
        requires
            min.wf(),
        ensures
            r.min_spec() == min@,
    {
        Self { min }
    }
}

impl<Frame: RayFrame> RayPredicate<Frame> for DopFilter {
    open spec fn holds(&self, ray: Ray<Frame>) -> bool {
        ray.dop_spec() >= self.min_spec()
    }

    open spec fn wf(&self) -> bool {
        0 <= self.min_spec() <= 1_000_000
    }

    fn eval(&self, ray: &Ray<Frame>) -> (r: bool) {
        self.min.into_inner() <= ray.dop().into_inner()
    }
}

/// Filters rays with a predicate: what remains is exactly the rays the
/// predicate holds on, in their original order.
pub struct RayFilter<P> {
    pred: P,
}

impl<P> RayFilter<P> {
    /// The predicate.
    pub closed spec fn pred_spec(&self) -> P {
        self.pred
    }

    /// Creates a filter from a predicate.
    pub fn new(pred: P) -> (r: Self)
        ensures
            r.pred_spec() == pred,
    {
        Self { pred }
    }

    /// Keeps the rays the predicate holds on, in order.
    pub fn filter<Frame: RayFrame>(&self, rays: &Vec<Ray<Frame>>) -> (r: Vec<Ray<Frame>>) where
        P: RayPredicate<Frame>

        requires
            self.pred_spec().wf(),
            forall|i: int| 0 <= i < rays@.len() ==> (#[trigger] rays@[i]).wf(),
        ensures
            r@ == rays@.filter(|ray: Ray<Frame>| self.pred_spec().holds(ray)),
    {
        let mut out: Vec<Ray<Frame>> = Vec::new();
        let mut i: usize = 0;
        proof {
            assert(rays@.take(0int) =~= Seq::<Ray<Frame>>::empty());
            assert(rays@.take(0int).filter(|ray: Ray<Frame>| self.pred_spec().holds(ray))
                =~= Seq::<Ray<Frame>>::empty());
        }
        while i < rays.len()
            invariant
                self.pred_spec().wf(),
                i <= rays@.len(),
                forall|j: int| 0 <= j < rays@.len() ==> (#[trigger] rays@[j]).wf(),
                out@ == rays@.take(i as int).filter(
                    |ray: Ray<Frame>| self.pred_spec().holds(ray),
                ),
            decreases rays@.len() - i,
        {
            let ray = rays[i];
            proof {
                reveal_with_fuel(Seq::filter, 2);
                assert(rays@.take(i + 1).drop_last() =~= rays@.take(i as int));
                assert(rays@.take(i + 1).last() == rays@[i as int]);
            }
            if self.pred.eval(&ray) {
                out.push(ray);
            }
            i = i + 1;
        }
        proof {
            assert(rays@.take(rays@.len() as int) =~= rays@);
        }
        out
    }
}

} // verus!
