//! The single-scattering Rayleigh model of skylight polarization.

use crate::angle::wrap_aop;
use crate::aop::Aop;
use crate::bearing::Bearing;
use crate::dop::Dop;
use crate::ray::GlobalFrame;
use crate::trig::{atan2_spec, atan2_ud, cos_spec, cos_ud, lemma_sin_range, sin_spec, sin_ud};
use vstd::prelude::*;

verus! {

/// Signed division truncating towards zero, the semantics of machine
/// division on signed integers.
pub open spec fn div_trunc(v: int, d: int) -> int {
    if v >= 0 {
        v / d
    } else {
        -((-v) / d)
    }
}

/// Signed division by the trigonometric scale, truncating towards zero.
/// A product of a whole number of scales divides exactly, so the exact
/// zeros and units of the scaled sine and cosine survive rescaling.
pub open spec fn div_trig_scale(v: int) -> int {
    div_trunc(v, 1_000_000_000)
}

/// The numerator of the Rayleigh angle-of-polarization formula, scaled
/// by 1e18: for zenith angles `z` of the queried bearing and `sz` of the
/// sun and an azimuth difference `daz`, the component of the scattering
/// geometry perpendicular to the queried meridian.
pub open spec fn sky_num(z: int, sz: int, daz: int) -> int {
    sin_spec(z) * cos_spec(sz) - div_trig_scale(cos_spec(z) * cos_spec(daz) * sin_spec(sz))
}

/// The denominator of the Rayleigh angle-of-polarization formula, scaled
/// by 1e18: it vanishes exactly on the solar and antisolar meridians.
pub open spec fn sky_den(sz: int, daz: int) -> int {
    sin_spec(daz) * sin_spec(sz)
}

/// The Rayleigh-predicted angle of polarization, in microdegrees, for a
/// bearing above the horizon: the angle of the scattering-geometry
/// vector, wrapped into the polarization range.
pub open spec fn sky_aop_spec(solar_az: int, solar_el: int, az: int, el: int) -> int {
    let z = 90_000_000 - el;
    let sz = 90_000_000 - solar_el;
    let daz = az - solar_az;
    wrap_aop(atan2_spec(sky_num(z, sz, daz), sky_den(sz, daz)))
}

/// The cosine of the scattering angle between a bearing and the sun,
/// scaled by 1e18 and then reduced to a scale of 1e14, so that its
/// square stays well within wide machine arithmetic.
pub open spec fn sky_cos_gamma_reduced(solar_az: int, solar_el: int, az: int, el: int) -> int {
    let z = 90_000_000 - el;
    let sz = 90_000_000 - solar_el;
    let daz = az - solar_az;
    let q = cos_spec(z) * cos_spec(sz) + div_trig_scale(sin_spec(z) * sin_spec(sz) * cos_spec(daz));
    div_trunc(q, 10_000)
}

/// The Rayleigh-predicted degree of polarization, in parts per million,
/// for a bearing above the horizon: `sin^2` of the scattering angle over
/// one plus its `cos^2`, clamped into range.
pub open spec fn sky_dop_spec(solar_az: int, solar_el: int, az: int, el: int) -> int {
    let q = sky_cos_gamma_reduced(solar_az, solar_el, az, el);
    let num = 10_000_000_000_000_000_000_000_000_000 - q * q;
    let den = 10_000_000_000_000_000_000_000_000_000 + q * q;
    if num <= 0 {
        0int
    } else if num * 1_000_000 / den > 1_000_000 {
        1_000_000int
    } else {
        num * 1_000_000 / den
    }
}

/// Describes the skylight polarization pattern seen by an observer, for
/// a given position of the sun.
#[derive(Clone, Copy, Debug, PartialEq, Eq, Structural)]
pub struct SkyModel {
    solar_bearing: Bearing,
}

impl SkyModel {
    /// The bearing of the sun's centre.
    pub closed spec fn solar_spec(&self) -> Bearing {
        self.solar_bearing
    }

    /// The solar bearing is a valid bearing.
    pub open spec fn wf(&self) -> bool {
        self.solar_spec().wf()
    }

    /// Creates a `SkyModel` from the bearing of the sun.
    pub fn from_solar_bearing(solar_bearing: Bearing) -> (r: Self)
        requires
            solar_bearing.wf(),
        ensures
            r.solar_spec() == solar_bearing,
            r.wf(),
    {
        Self { solar_bearing }
    }

    /// The bearing of the sun.
    pub fn solar_bearing(&self) -> (r: Bearing)
        ensures
            r == self.solar_spec(),
    {
        self.solar_bearing
    }

    /// The Rayleigh-predicted angle of polarization at `bearing`, in
    /// the global frame.
    ///
    /// Returns `None` exactly when the bearing lies below the horizon.
    pub fn aop(&self, bearing: &Bearing) -> (r: Option<Aop<GlobalFrame>>)
        requires
            self.wf(),
            bearing.wf(),
        ensures
            r is Some <==> bearing.elevation_spec() >= 0,
            r matches Some(a) ==> a@ == sky_aop_spec(
                self.solar_spec().azimuth_spec(),
                self.solar_spec().elevation_spec(),
                bearing.azimuth_spec(),
                bearing.elevation_spec(),
            ) && a.wf(),
    {
        if bearing.elevation() < 0 {
            return None;
        }
        let z: i64 = 90_000_000 - bearing.elevation();
        let sz: i64 = 90_000_000 - self.solar_bearing.elevation();
        let daz: i64 = bearing.azimuth() - self.solar_bearing.azimuth();
        let sin_z = sin_ud(z);
        let cos_z = cos_ud(z);
        let sin_sz = sin_ud(sz);
        let cos_sz = cos_ud(sz);
        let sin_daz = sin_ud(daz);
        let cos_daz = cos_ud(daz);
        proof {
            lemma_trig_product_bounds(sin_z as int, cos_sz as int);
            lemma_trig_product_bounds(sin_daz as int, sin_sz as int);
            lemma_trig_triple_bounds(cos_z as int, cos_daz as int, sin_sz as int);
        }
        let term1: i64 = sin_z * cos_sz;
        let triple: i128 = (cos_z as i128) * (cos_daz as i128) * (sin_sz as i128);
        let term2: i64 = div_trig_scale_i128(triple);
        let num: i64 = term1 - term2;
        let den: i64 = sin_daz * sin_sz;
        let angle = atan2_ud(num, den);
        Some(Aop::<GlobalFrame>::from_angle_wrapped(angle))
    }

    /// The Rayleigh-predicted degree of polarization at `bearing`.
    ///
    /// Returns `None` exactly when the bearing lies below the horizon.
    pub fn dop(&self, bearing: &Bearing) -> (r: Option<Dop>)
        requires
            self.wf(),
            bearing.wf(),
        ensures
            r is Some <==> bearing.elevation_spec() >= 0,
            r matches Some(d) ==> d@ == sky_dop_spec(
                self.solar_spec().azimuth_spec(),
                self.solar_spec().elevation_spec(),
                bearing.azimuth_spec(),
                bearing.elevation_spec(),
            ) && d.wf(),
    {
        if bearing.elevation() < 0 {
            return None;
        }
        let z: i64 = 90_000_000 - bearing.elevation();
        let sz: i64 = 90_000_000 - self.solar_bearing.elevation();
        let daz: i64 = bearing.azimuth() - self.solar_bearing.azimuth();
        let sin_z = sin_ud(z);
        let cos_z = cos_ud(z);
        let sin_sz = sin_ud(sz);
        let cos_sz = cos_ud(sz);
        let cos_daz = cos_ud(daz);
        proof {
            lemma_trig_product_bounds(cos_z as int, cos_sz as int);
            lemma_trig_triple_bounds(sin_z as int, sin_sz as int, cos_daz as int);
        }
        let term1: i64 = cos_z * cos_sz;
        let triple: i128 = (sin_z as i128) * (sin_sz as i128) * (cos_daz as i128);
        let term2: i64 = div_trig_scale_i128(triple);
        let q: i64 = term1 + term2;
        let q_reduced: i64 = div_by_ten_thousand(q);
        proof {
            assert(0 <= q_reduced as int * q_reduced as int
                <= 40_000_000_000_000_000_000_000_000_000) by (nonlinear_arith)
                requires
                    -200_000_000_000_000 <= q_reduced as int <= 200_000_000_000_000,
            ;
        }
        let q2: i128 = (q_reduced as i128) * (q_reduced as i128);
        let num: i128 = 10_000_000_000_000_000_000_000_000_000 - q2;
        let den: i128 = 10_000_000_000_000_000_000_000_000_000 + q2;
        let ppm: i64 = if num <= 0 {
            0
        } else {
            proof {
                vstd::arithmetic::div_mod::lemma_div_pos_is_pos(num as int * 1_000_000, den as int);
                vstd::arithmetic::div_mod::lemma_div_is_ordered_by_denominator(
                    num as int * 1_000_000,
                    1,
                    den as int,
                );
            }
            let scaled: i128 = (((num as u128) * 1_000_000) / (den as u128)) as i128;
            if scaled > 1_000_000 {
                1_000_000
            } else {
                scaled as i64
            }
        };
        match Dop::new(ppm) {
            Ok(d) => Some(d),
            Err(_) => None,
        }
    }
}

/// Signed division by the trigonometric scale, truncating towards zero,
/// executable on wide intermediates.
fn div_trig_scale_i128(v: i128) -> (r: i64)
    requires
        -8_000_000_000_000_000_000_000_000_000 <= v <= 8_000_000_000_000_000_000_000_000_000,
    ensures
        r == div_trig_scale(v as int),
        -8_000_000_000_000_000_000 <= r <= 8_000_000_000_000_000_000,
{
    if v >= 0 {
        ((v as u128) / 1_000_000_000) as i64
    } else {
        -((((-v) as u128) / 1_000_000_000) as i64)
    }
}

/// Signed division by ten thousand, truncating towards zero.
fn div_by_ten_thousand(v: i64) -> (r: i64)
    requires
        -2_000_000_000_000_000_000 <= v <= 2_000_000_000_000_000_000,
    ensures
        r == div_trunc(v as int, 10_000),
        -200_000_000_000_000 <= r <= 200_000_000_000_000,
{
    if v >= 0 {
        ((v as u64) / 10_000) as i64
    } else {
        -((((-v) as u64) / 10_000) as i64)
    }
}

/// The product of two scaled trigonometric values stays within the
/// square of the scale.
proof fn lemma_trig_product_bounds(a: int, b: int)
    requires
        -1_000_000_000 <= a <= 1_000_000_000,
        -1_000_000_000 <= b <= 1_000_000_000,
    ensures
        -1_000_000_000_000_000_000 <= a * b <= 1_000_000_000_000_000_000,
{
    assert(-1_000_000_000_000_000_000 <= a * b <= 1_000_000_000_000_000_000) by (nonlinear_arith)
        requires
            -1_000_000_000 <= a <= 1_000_000_000,
            -1_000_000_000 <= b <= 1_000_000_000,
    ;
}

/// The product of three scaled trigonometric values stays within the
/// cube of the scale, and its first pair within the square.
proof fn lemma_trig_triple_bounds(a: int, b: int, c: int)
    requires
        -1_000_000_000 <= a <= 1_000_000_000,
        -1_000_000_000 <= b <= 1_000_000_000,
        -1_000_000_000 <= c <= 1_000_000_000,
    ensures
        -1_000_000_000_000_000_000 <= a * b <= 1_000_000_000_000_000_000,
        -1_000_000_000_000_000_000_000_000_000 <= a * b * c
            <= 1_000_000_000_000_000_000_000_000_000,
{
    lemma_trig_product_bounds(a, b);
    assert(-1_000_000_000_000_000_000_000_000_000 <= (a * b) * c
        <= 1_000_000_000_000_000_000_000_000_000) by (nonlinear_arith)
        requires
            -1_000_000_000_000_000_000 <= a * b <= 1_000_000_000_000_000_000,
            -1_000_000_000 <= c <= 1_000_000_000,
    ;
}

/// On the solar and antisolar meridians the predicted angle of
/// polarization is exactly orthogonal to the meridian: its magnitude is
/// a quarter turn at every elevation, for every solar elevation.
///
/// The one family of inputs left out is the degenerate geometry whose
/// numerator also vanishes — looking straight at the sun, or at the
/// antisolar point on the horizon with the sun itself on the horizon —
/// where no angle of polarization is defined at all.
pub proof fn lemma_sky_orthogonal_on_meridian(solar_az: int, solar_el: int, az: int, el: int)
    requires
        -90_000_000 <= solar_el <= 90_000_000,
        0 <= el <= 90_000_000,
        az == solar_az || az == solar_az + 180_000_000,
        sky_num(90_000_000 - el, 90_000_000 - solar_el, az - solar_az) != 0,
    ensures
        sky_aop_spec(solar_az, solar_el, az, el) == 90_000_000 || sky_aop_spec(
            solar_az,
            solar_el,
            az,
            el,
        ) == -90_000_000,
{
    let z = 90_000_000 - el;
    let sz = 90_000_000 - solar_el;
    let daz = az - solar_az;
    lemma_sin_range(daz);
    assert(crate::trig::reduce_turn(0) == 0);
    assert(crate::trig::reduce_turn(180_000_000) == crate::trig::reduce_turn(-180_000_000));
    assert(crate::trig::reduce_turn(-180_000_000) == -180_000_000);
    assert(sin_spec(daz) == 0);
    assert(sky_den(sz, daz) == 0) by (nonlinear_arith)
        requires
            sin_spec(daz) == 0,
            sky_den(sz, daz) == sin_spec(daz) * sin_spec(sz),
    ;
    let num = sky_num(z, sz, daz);
    assert(atan2_spec(num, 0) == 90_000_000 || atan2_spec(num, 0) == -90_000_000);
}

} // verus!
