//! Orientations and fixed-point 3-D rotation.
//!
//! An orientation is a roll, pitch, yaw triple in microdegrees; its
//! rotation matrix is the usual composition of the three axis rotations,
//! yaw outermost, with entries scaled by 1e9.

use crate::model::div_trig_scale;
use crate::trig::{cos_spec, cos_ud, sin_spec, sin_ud};
use vstd::prelude::*;

verus! {

/// A camera attitude in the local east-north-up frame, as the Euler
/// angles of the rotation carrying the aligned body frame onto it:
/// roll about the forward axis, pitch about the right axis, yaw about
/// the up axis, in microdegrees.
#[derive(Clone, Copy, Debug, PartialEq, Eq, Structural)]
pub struct Orientation {
    roll_ud: i64,
    pitch_ud: i64,
    yaw_ud: i64,
}

impl Orientation {
    /// The roll in microdegrees.
    pub closed spec fn roll_spec(&self) -> int {
        self.roll_ud as int
    }

    /// The pitch in microdegrees.
    pub closed spec fn pitch_spec(&self) -> int {
        self.pitch_ud as int
    }

    /// The yaw in microdegrees.
    pub closed spec fn yaw_spec(&self) -> int {
        self.yaw_ud as int
    }

    /// Each angle stays within one full turn, which keeps shifted
    /// angles inside the exact range of the trigonometry.
    pub open spec fn wf(&self) -> bool {
        -360_000_000 <= self.roll_spec() <= 360_000_000 && -360_000_000 <= self.pitch_spec()
            <= 360_000_000 && -360_000_000 <= self.yaw_spec() <= 360_000_000
    }

    /// The orientation with the given roll, pitch and yaw in
    /// microdegrees, as a value.
    pub closed spec fn from_angles_spec(roll: int, pitch: int, yaw: int) -> Orientation {
        Orientation { roll_ud: roll as i64, pitch_ud: pitch as i64, yaw_ud: yaw as i64 }
    }

    /// The components of a constructed orientation are the angles it
    /// was constructed from, whenever they are representable.
    pub proof fn lemma_from_angles_spec(roll: int, pitch: int, yaw: int)
        requires
            -360_000_000 <= roll <= 360_000_000,
            -360_000_000 <= pitch <= 360_000_000,
            -360_000_000 <= yaw <= 360_000_000,
        ensures
            Orientation::from_angles_spec(roll, pitch, yaw).roll_spec() == roll,
            Orientation::from_angles_spec(roll, pitch, yaw).pitch_spec() == pitch,
            Orientation::from_angles_spec(roll, pitch, yaw).yaw_spec() == yaw,
            Orientation::from_angles_spec(roll, pitch, yaw).wf(),
    {
    }

    /// Creates an orientation from roll, pitch and yaw in microdegrees,
    /// each within one full turn.
    pub fn new(roll_ud: i64, pitch_ud: i64, yaw_ud: i64) -> (r: Self)
        requires
            -360_000_000 <= roll_ud <= 360_000_000,
            -360_000_000 <= pitch_ud <= 360_000_000,
            -360_000_000 <= yaw_ud <= 360_000_000,
        ensures
            r.roll_spec() == roll_ud,
            r.pitch_spec() == pitch_ud,
            r.yaw_spec() == yaw_ud,
            r == Orientation::from_angles_spec(roll_ud as int, pitch_ud as int, yaw_ud as int),
            r.wf(),
    {
        Self { roll_ud, pitch_ud, yaw_ud }
    }

    /// The identity attitude: the body frame aligned with the local
    /// frame.
    pub fn aligned() -> (r: Self)
        ensures
            r.roll_spec() == 0,
            r.pitch_spec() == 0,
            r.yaw_spec() == 0,
            r.wf(),
    {
        Self { roll_ud: 0, pitch_ud: 0, yaw_ud: 0 }
    }

    /// The roll in microdegrees.
    pub fn roll(&self) -> (r: i64)
        ensures
            r == self.roll_spec(),
    {
        self.roll_ud
    }

    /// The pitch in microdegrees.
    pub fn pitch(&self) -> (r: i64)
        ensures
            r == self.pitch_spec(),
    {
        self.pitch_ud
    }

    /// The yaw in microdegrees.
    pub fn yaw(&self) -> (r: i64)
        ensures
            r == self.yaw_spec(),
    {
        self.yaw_ud
    }
}

/// An integer 3-vector. Directions carry a scale of 1e9; positions on
/// the sensor plane a scale of half-nanometres.
#[derive(Clone, Copy, Debug, PartialEq, Eq, Structural)]
pub struct Vec3 {
    pub x: i64,
    pub y: i64,
    pub z: i64,
}

impl Vec3 {
    /// Components small enough to rotate without overflow.
    pub open spec fn bounded(&self, b: int) -> bool {
        -b <= self.x <= b && -b <= self.y <= b && -b <= self.z <= b
    }
}

/// One entry of a rotation matrix built from a product of two scaled
/// trigonometric values.
pub open spec fn entry2(a: int, b: int) -> int {
    div_trig_scale(a * b)
}

/// One entry of a rotation matrix built from a product of three scaled
/// trigonometric values.
pub open spec fn entry3(a: int, b: int, c: int) -> int {
    div_trig_scale(div_trig_scale(a * b) * c)
}

/// A 3-by-3 rotation matrix with entries scaled by 1e9, stored row by
/// row.
#[derive(Clone, Copy, Debug, PartialEq, Eq, Structural)]
pub struct Rot3 {
    pub xx: i64,
    pub xy: i64,
    pub xz: i64,
    pub yx: i64,
    pub yy: i64,
    pub yz: i64,
    pub zx: i64,
    pub zy: i64,
    pub zz: i64,
}

impl Rot3 {
    /// Every entry stays within twice the scale: each is a sum of at
    /// most two products of sines and cosines.
    pub open spec fn wf(&self) -> bool {
        -2_000_000_000 <= self.xx <= 2_000_000_000 && -2_000_000_000 <= self.xy <= 2_000_000_000
            && -2_000_000_000 <= self.xz <= 2_000_000_000 && -2_000_000_000 <= self.yx
            <= 2_000_000_000 && -2_000_000_000 <= self.yy <= 2_000_000_000 && -2_000_000_000
            <= self.yz <= 2_000_000_000 && -2_000_000_000 <= self.zx <= 2_000_000_000
            && -2_000_000_000 <= self.zy <= 2_000_000_000 && -2_000_000_000 <= self.zz
            <= 2_000_000_000
    }

    /// Whether this matrix is the rotation of attitude `o`: yaw about
    /// the up axis, then pitch, then roll, applied to body coordinates.
    pub open spec fn is_rotation_of(&self, o: Orientation) -> bool {
        let sr = sin_spec(o.roll_spec());
        let cr = cos_spec(o.roll_spec());
        let sp = sin_spec(o.pitch_spec());
        let cp = cos_spec(o.pitch_spec());
        let sy = sin_spec(o.yaw_spec());
        let cy = cos_spec(o.yaw_spec());
        self.xx == entry2(cy, cp) && self.xy == entry3(cy, sp, sr) - entry2(sy, cr) && self.xz
            == entry3(cy, sp, cr) + entry2(sy, sr) && self.yx == entry2(sy, cp) && self.yy
            == entry3(sy, sp, sr) + entry2(cy, cr) && self.yz == entry3(sy, sp, cr) - entry2(
            cy,
            sr,
        ) && self.zx == -sp && self.zy == entry2(cp, sr) && self.zz == entry2(cp, cr)
    }

    /// Builds the rotation matrix of an attitude: the body-to-local
    /// rotation with yaw outermost.
    pub fn from_orientation(o: &Orientation) -> (r: Rot3)
        requires
            o.wf(),
        ensures
            r.is_rotation_of(*o),
            r == rot_of(*o),
            r.wf(),
    {
        let sr = sin_ud(o.roll());
        let cr = cos_ud(o.roll());
        let sp = sin_ud(o.pitch());
        let cp = cos_ud(o.pitch());
        let sy = sin_ud(o.yaw());
        let cy = cos_ud(o.yaw());
        Rot3 {
            xx: mul2(cy, cp),
            xy: mul3(cy, sp, sr) - mul2(sy, cr),
            xz: mul3(cy, sp, cr) + mul2(sy, sr),
            yx: mul2(sy, cp),
            yy: mul3(sy, sp, sr) + mul2(cy, cr),
            yz: mul3(sy, sp, cr) - mul2(cy, sr),
            zx: -sp,
            zy: mul2(cp, sr),
            zz: mul2(cp, cr),
        }
    }

    /// The transpose: the inverse rotation.
    pub fn transpose(&self) -> (r: Rot3)
        ensures
            r.xx == self.xx && r.xy == self.yx && r.xz == self.zx,
            r.yx == self.xy && r.yy == self.yy && r.yz == self.zy,
            r.zx == self.xz && r.zy == self.yz && r.zz == self.zz,
            self.wf() ==> r.wf(),
    {
        Rot3 {
            xx: self.xx,
            xy: self.yx,
            xz: self.zx,
            yx: self.xy,
            yy: self.yy,
            yz: self.zy,
            zx: self.xz,
            zy: self.yz,
            zz: self.zz,
        }
    }


    /// The matrix applied to a vector whose components stay within
    /// 1e15: the rotated vector, with each component rescaled.
    pub fn apply(&self, v: &Vec3) -> (r: Vec3)
        requires
            self.wf(),
            v.bounded(1_000_000_000_000_000),
        ensures
            r.x == row_apply(self.xx as int, self.xy as int, self.xz as int, v.x as int, v.y as int, v.z as int),
            r.y == row_apply(self.yx as int, self.yy as int, self.yz as int, v.x as int, v.y as int, v.z as int),
            r.z == row_apply(self.zx as int, self.zy as int, self.zz as int, v.x as int, v.y as int, v.z as int),
            r.bounded(6_000_000_000_000_000),
    {
        Vec3 {
            x: row_apply_exec(self.xx, self.xy, self.xz, v),
            y: row_apply_exec(self.yx, self.yy, self.yz, v),
            z: row_apply_exec(self.zx, self.zy, self.zz, v),
        }
    }
}

/// One row of a rotation matrix applied to a vector, rescaled back.
pub open spec fn row_apply(m1: int, m2: int, m3: int, x: int, y: int, z: int) -> int {
    div_trig_scale(m1 * x + m2 * y + m3 * z)
}

/// The rotation matrix of an attitude, as a value: the same entries
/// that `Rot3::from_orientation` computes.
pub open spec fn rot_of(o: Orientation) -> Rot3 {
    let sr = sin_spec(o.roll_spec());
    let cr = cos_spec(o.roll_spec());
    let sp = sin_spec(o.pitch_spec());
    let cp = cos_spec(o.pitch_spec());
    let sy = sin_spec(o.yaw_spec());
    let cy = cos_spec(o.yaw_spec());
    Rot3 {
        xx: entry2(cy, cp) as i64,
        xy: (entry3(cy, sp, sr) - entry2(sy, cr)) as i64,
        xz: (entry3(cy, sp, cr) + entry2(sy, sr)) as i64,
        yx: entry2(sy, cp) as i64,
        yy: (entry3(sy, sp, sr) + entry2(cy, cr)) as i64,
        yz: (entry3(sy, sp, cr) - entry2(cy, sr)) as i64,
        zx: (-sp) as i64,
        zy: entry2(cp, sr) as i64,
        zz: entry2(cp, cr) as i64,
    }
}

/// The product of two scaled trigonometric values, rescaled back.
pub(crate) fn mul2(a: i64, b: i64) -> (r: i64)
    requires
        -1_000_000_000 <= a <= 1_000_000_000,
        -1_000_000_000 <= b <= 1_000_000_000,
    ensures
        r == entry2(a as int, b as int),
        -1_000_000_000 <= r <= 1_000_000_000,
{
    proof {
        lemma_product_bound(a as int, b as int, 1_000_000_000, 1_000_000_000);
        lemma_div_trunc_scale_bound(a as int * b as int, 1_000_000_000_000_000_000);
    }
    let wide: i128 = (a as i128) * (b as i128);
    div_scale_i128(wide)
}

/// The product of three scaled trigonometric values, rescaled back in
/// two steps exactly as the matrix-entry formula states.
fn mul3(a: i64, b: i64, c: i64) -> (r: i64)
    requires
        -1_000_000_000 <= a <= 1_000_000_000,
        -1_000_000_000 <= b <= 1_000_000_000,
        -1_000_000_000 <= c <= 1_000_000_000,
    ensures
        r == entry3(a as int, b as int, c as int),
        -1_000_000_000 <= r <= 1_000_000_000,
{
    let ab = mul2(a, b);
    mul2(ab, c)
}

/// One row of a rotation applied to a bounded vector, executable.
fn row_apply_exec(m1: i64, m2: i64, m3: i64, v: &Vec3) -> (r: i64)
    requires
        -2_000_000_000 <= m1 <= 2_000_000_000,
        -2_000_000_000 <= m2 <= 2_000_000_000,
        -2_000_000_000 <= m3 <= 2_000_000_000,
        v.bounded(1_000_000_000_000_000),
    ensures
        r == row_apply(m1 as int, m2 as int, m3 as int, v.x as int, v.y as int, v.z as int),
        -6_000_000_000_000_000 <= r <= 6_000_000_000_000_000,
{
    proof {
        lemma_product_bound(m1 as int, v.x as int, 2_000_000_000, 1_000_000_000_000_000);
        lemma_product_bound(m2 as int, v.y as int, 2_000_000_000, 1_000_000_000_000_000);
        lemma_product_bound(m3 as int, v.z as int, 2_000_000_000, 1_000_000_000_000_000);
        lemma_div_trunc_scale_bound(
            m1 as int * v.x as int + m2 as int * v.y as int + m3 as int * v.z as int,
            6_000_000_000_000_000_000_000_000,
        );
    }
    let wide: i128 = (m1 as i128) * (v.x as i128) + (m2 as i128) * (v.y as i128) + (m3 as i128)
        * (v.z as i128);
    div_scale_i128(wide)
}

/// Signed division by the trigonometric scale on wide intermediates,
/// truncating towards zero.
fn div_scale_i128(v: i128) -> (r: i64)
    requires
        -8_000_000_000_000_000_000_000_000_000 <= v <= 8_000_000_000_000_000_000_000_000_000,
    ensures
        r == div_trig_scale(v as int),
        -8_000_000_000_000_000_000 <= r <= 8_000_000_000_000_000_000,
{
    proof {
        lemma_div_trunc_scale_bound(v as int, 8_000_000_000_000_000_000_000_000_000);
    }
    if v >= 0 {
        ((v as u128) / 1_000_000_000) as i64
    } else {
        -((((-v) as u128) / 1_000_000_000) as i64)
    }
}

/// The product of two values within the given magnitudes stays within
/// their product.
proof fn lemma_product_bound(a: int, b: int, ba: int, bb: int)
    requires
        -ba <= a <= ba,
        -bb <= b <= bb,
        0 <= ba,
        0 <= bb,
    ensures
        -ba * bb <= a * b <= ba * bb,
{
    assert(-ba * bb <= a * b <= ba * bb) by (nonlinear_arith)
        requires
            -ba <= a <= ba,
            -bb <= b <= bb,
            0 <= ba,
            0 <= bb,
    ;
}

/// Truncating division by the scale shrinks a bounded value to its
/// bound over the scale.
proof fn lemma_div_trunc_scale_bound(v: int, b: int)
    requires
        -b <= v <= b,
        0 <= b,
    ensures
        -(b / 1_000_000_000) <= div_trig_scale(v) <= b / 1_000_000_000,
        v >= 0 ==> 0 <= div_trig_scale(v) <= v,
        v < 0 ==> v <= div_trig_scale(v) <= 0,
{
    if v >= 0 {
        vstd::arithmetic::div_mod::lemma_div_pos_is_pos(v, 1_000_000_000);
        vstd::arithmetic::div_mod::lemma_div_is_ordered(v, b, 1_000_000_000);
        vstd::arithmetic::div_mod::lemma_div_is_ordered_by_denominator(v, 1, 1_000_000_000);
    } else {
        vstd::arithmetic::div_mod::lemma_div_pos_is_pos(-v, 1_000_000_000);
        vstd::arithmetic::div_mod::lemma_div_is_ordered(-v, b, 1_000_000_000);
        vstd::arithmetic::div_mod::lemma_div_is_ordered_by_denominator(-v, 1, 1_000_000_000);
    }
}

} // verus!
