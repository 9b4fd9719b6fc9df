//! Fixed-point trigonometry on angles in microdegrees.
//!
//! Sine and cosine are computed with Bhaskara's rational approximation,
//! which is exact at every multiple of a quarter turn; the arctangent uses
//! a cubic correction to the linear term, exact at slopes of zero and one.
//! Values are scaled by 1e9. Accuracy is a few thousandths of a degree,
//! which is far below the physical noise of a polarization measurement;
//! the contracts pin every result to its defining formula and state the
//! exact values at the axes, which is what the rest of the library's
//! proofs rely on.

use vstd::arithmetic::div_mod::{
    lemma_basic_div, lemma_div_is_ordered, lemma_div_multiples_vanish, lemma_div_pos_is_pos,
    lemma_fundamental_div_mod, lemma_mod_bound,
};
use vstd::prelude::*;

verus! {

/// Reduces an angle in microdegrees into [-180e6, 180e6) by whole turns.
pub open spec fn reduce_turn(a: int) -> int
    decreases (if a >= 0 { 2 * a + 1 } else { -2 * a }),
{
    if a >= 180_000_000 {
        reduce_turn(a - 360_000_000)
    } else if a < -180_000_000 {
        reduce_turn(a + 360_000_000)
    } else {
        a
    }
}

/// Bhaskara's rational approximation of the sine of `x` microdegrees,
/// scaled by 1e9, for `x` in [0, 180e6]. Exact at 0, 90e6 and 180e6.
pub open spec fn bhaskara(x: int) -> int {
    (4 * x * (180_000_000 - x) * 1_000_000_000) / (40_500_000_000_000_000 - x * (180_000_000 - x))
}

/// The sine of an angle in microdegrees, scaled by 1e9.
pub open spec fn sin_spec(a: int) -> int {
    let r = reduce_turn(a);
    if r >= 0 {
        bhaskara(r)
    } else {
        -bhaskara(-r)
    }
}

/// The cosine of an angle in microdegrees, scaled by 1e9.
pub open spec fn cos_spec(a: int) -> int {
    sin_spec(a + 90_000_000)
}

/// Reduction stays within one half turn of zero.
pub proof fn lemma_reduce_turn_range(a: int)
    ensures
        -180_000_000 <= reduce_turn(a) < 180_000_000,
    decreases (if a >= 0 { 2 * a + 1 } else { -2 * a }),
{
    if a >= 180_000_000 {
        lemma_reduce_turn_range(a - 360_000_000);
    } else if a < -180_000_000 {
        lemma_reduce_turn_range(a + 360_000_000);
    }
}

/// The quadratic `x * (180e6 - x)` on [0, 180e6]: bounded by its maximum
/// at the midpoint, and at least its value one microdegree in from the
/// ends.
proof fn lemma_hump_bounds(x: int)
    requires
        0 <= x <= 180_000_000,
    ensures
        0 <= x * (180_000_000 - x) <= 8_100_000_000_000_000,
        1 <= x <= 179_999_999 ==> x * (180_000_000 - x) >= 179_999_999,
{
    assert(x * (180_000_000 - x) >= 0) by (nonlinear_arith)
        requires
            0 <= x <= 180_000_000,
    ;
    assert((x - 90_000_000) * (x - 90_000_000) >= 0) by (nonlinear_arith);
    assert(x * (180_000_000 - x) == 8_100_000_000_000_000 - (x - 90_000_000) * (x - 90_000_000))
        by (nonlinear_arith);
    if 1 <= x <= 179_999_999 {
        assert((x - 1) * (179_999_999 - x) >= 0) by (nonlinear_arith)
            requires
                1 <= x <= 179_999_999,
        ;
        assert(x * (180_000_000 - x) == (x - 1) * (179_999_999 - x) + 179_999_999)
            by (nonlinear_arith);
    }
}

/// Bhaskara's approximation stays within scale, is exactly the scale at a
/// quarter turn, and vanishes exactly at the ends of its domain.
pub proof fn lemma_bhaskara_range(x: int)
    requires
        0 <= x <= 180_000_000,
    ensures
        0 <= bhaskara(x) <= 1_000_000_000,
        x == 0 || x == 180_000_000 ==> bhaskara(x) == 0,
        x == 90_000_000 ==> bhaskara(x) == 1_000_000_000,
        1 <= x <= 179_999_999 ==> bhaskara(x) >= 1,
{
    let u = x * (180_000_000 - x);
    let num = 4 * x * (180_000_000 - x) * 1_000_000_000;
    let den = 40_500_000_000_000_000 - u;
    lemma_hump_bounds(x);
    assert(num == 4 * u * 1_000_000_000) by (nonlinear_arith)
        requires
            u == x * (180_000_000 - x),
            num == 4 * x * (180_000_000 - x) * 1_000_000_000,
    ;
    assert(den >= 32_400_000_000_000_000);
    lemma_div_pos_is_pos(num, den);
    // The numerator is at most the scale times the denominator
    // because 5 * u stays at most 40.5e15.
    assert(num <= 1_000_000_000 * den) by (nonlinear_arith)
        requires
            num == 4 * u * 1_000_000_000,
            den == 40_500_000_000_000_000 - u,
            u <= 8_100_000_000_000_000,
    ;
    lemma_div_is_ordered(num, 1_000_000_000 * den, den);
    lemma_div_multiples_vanish(1_000_000_000, den);
    if x == 0 || x == 180_000_000 {
        assert(num == 0) by (nonlinear_arith)
            requires
                num == 4 * u * 1_000_000_000,
                u == x * (180_000_000 - x),
                x == 0 || x == 180_000_000,
        ;
        lemma_basic_div(0, den);
    }
    if x == 90_000_000 {
        assert(num == 1_000_000_000 * den) by (nonlinear_arith)
            requires
                num == 4 * u * 1_000_000_000,
                den == 40_500_000_000_000_000 - u,
                u == 8_100_000_000_000_000,
        ;
        lemma_div_multiples_vanish(1_000_000_000, den);
    }
    if 1 <= x <= 179_999_999 {
        assert(num >= den) by (nonlinear_arith)
            requires
                num == 4 * u * 1_000_000_000,
                den == 40_500_000_000_000_000 - u,
                u >= 179_999_999,
        ;
        lemma_div_is_ordered(den, num, den);
        lemma_div_multiples_vanish(1, den);
    }
}

/// The sine of every angle stays within scale, and it vanishes exactly on
/// multiples of a half turn.
pub proof fn lemma_sin_range(a: int)
    ensures
        -1_000_000_000 <= sin_spec(a) <= 1_000_000_000,
        reduce_turn(a) == 0 || reduce_turn(a) == -180_000_000 ==> sin_spec(a) == 0,
        reduce_turn(a) == 90_000_000 ==> sin_spec(a) == 1_000_000_000,
        reduce_turn(a) == -90_000_000 ==> sin_spec(a) == -1_000_000_000,
{
    let r = reduce_turn(a);
    lemma_reduce_turn_range(a);
    if r >= 0 {
        lemma_bhaskara_range(r);
    } else {
        lemma_bhaskara_range(-r);
    }
}

/// Reduces an angle in microdegrees into [-180e6, 180e6) by whole turns.
pub fn reduce_turn_ud(a: i64) -> (r: i64)
    ensures
        r == reduce_turn(a as int),
        -180_000_000 <= r < 180_000_000,
{
    let mut v: i64 = a;
    while v >= 180_000_000
        invariant
            reduce_turn(v as int) == reduce_turn(a as int),
        decreases (if v >= 0 { 2 * v + 1 } else { -2 * v }),
    {
        v = v - 360_000_000;
    }
    while v < -180_000_000
        invariant
            reduce_turn(v as int) == reduce_turn(a as int),
            v < 180_000_000,
        decreases (if v >= 0 { 2 * v + 1 } else { -2 * v }),
    {
        v = v + 360_000_000;
    }
    v
}

/// Bhaskara's approximation, executable: requires its domain, and returns
/// exactly the value of the defining formula.
fn bhaskara_ud(x: i64) -> (r: i64)
    requires
        0 <= x <= 180_000_000,
    ensures
        r == bhaskara(x as int),
        0 <= r <= 1_000_000_000,
{
    proof {
        lemma_bhaskara_range(x as int);
        lemma_hump_bounds(x as int);
    }
    let u: u128 = (x as u128) * ((180_000_000 - x) as u128);
    let num: u128 = 4 * u * 1_000_000_000;
    let den: u128 = 40_500_000_000_000_000 - u;
    proof {
        assert(num == 4 * (x as int) * (180_000_000 - x as int) * 1_000_000_000)
            by (nonlinear_arith)
            requires
                u == (x as int) * (180_000_000 - x as int),
                num == 4 * u * 1_000_000_000,
                0 <= u <= 8_100_000_000_000_000,
        ;
    }
    (num / den) as i64
}

/// The sine of an angle in microdegrees, scaled by 1e9.
pub fn sin_ud(a: i64) -> (r: i64)
    ensures
        r == sin_spec(a as int),
        -1_000_000_000 <= r <= 1_000_000_000,
{
    let reduced = reduce_turn_ud(a);
    if reduced >= 0 {
        bhaskara_ud(reduced)
    } else {
        -bhaskara_ud(-reduced)
    }
}

/// The cosine of an angle in microdegrees, scaled by 1e9.
///
/// The angle is bounded so that shifting it by a quarter turn cannot
/// overflow; a million degrees is far beyond any reduced angle the
/// library produces.
pub fn cos_ud(a: i64) -> (r: i64)
    requires
        -1_000_000_000_000 <= a <= 1_000_000_000_000,
    ensures
        r == cos_spec(a as int),
        -1_000_000_000 <= r <= 1_000_000_000,
{
    sin_ud(a + 90_000_000)
}

/// The arctangent in microdegrees of a slope `u` scaled by 1e9, for
/// slopes in [0, 1]: the linear term plus a cubic correction. Exact at
/// slopes of zero and one.
pub open spec fn atan_ratio(u: int) -> int {
    let inner = 14_020_700 + (3_798_900 * u) / 1_000_000_000;
    (45 * u) / 1000 + (u * ((1_000_000_000 - u) * inner)) / 1_000_000_000_000_000_000
}

/// The arctangent of a slope in [0, 1] lies in [0, 45e6] microdegrees,
/// with the ends of the slope range mapped exactly.
pub proof fn lemma_atan_ratio_range(u: int)
    requires
        0 <= u <= 1_000_000_000,
    ensures
        0 <= atan_ratio(u) <= 45_000_000,
        u == 0 ==> atan_ratio(u) == 0,
        u == 1_000_000_000 ==> atan_ratio(u) == 45_000_000,
{
    let inner = 14_020_700 + (3_798_900 * u) / 1_000_000_000;
    let t1 = (45 * u) / 1000;
    let hump = u * ((1_000_000_000 - u) * inner);
    let t2 = hump / 1_000_000_000_000_000_000;
    assert((3_798_900 * u) / 1_000_000_000 >= 0) by {
        lemma_div_pos_is_pos(3_798_900 * u, 1_000_000_000);
    }
    assert((3_798_900 * u) / 1_000_000_000 <= 3_798_900) by {
        lemma_div_is_ordered(3_798_900 * u, (1_000_000_000 * 3_798_900) as int, 1_000_000_000);
        lemma_div_multiples_vanish(3_798_900, 1_000_000_000);
    }
    assert(0 <= hump) by (nonlinear_arith)
        requires
            hump == u * ((1_000_000_000 - u) * inner),
            0 <= u <= 1_000_000_000,
            0 < inner,
    ;
    assert(t1 >= 0) by {
        lemma_div_pos_is_pos(45 * u, 1000);
    }
    assert(t2 >= 0) by {
        lemma_div_pos_is_pos(hump, 1_000_000_000_000_000_000);
    }
    assert(1000 * t1 <= 45 * u) by {
        lemma_fundamental_div_mod(45 * u, 1000);
        lemma_mod_bound(45 * u, 1000);
    }
    assert(1_000_000_000_000_000_000 * t2 <= hump) by {
        lemma_fundamental_div_mod(hump, 1_000_000_000_000_000_000);
        lemma_mod_bound(hump, 1_000_000_000_000_000_000);
    }
    assert(hump <= 45_000_000_000_000_000 * (1_000_000_000 - u)) by (nonlinear_arith)
        requires
            hump == u * ((1_000_000_000 - u) * inner),
            0 <= u <= 1_000_000_000,
            0 < inner <= 17_819_600,
    ;
    assert(t1 + t2 <= 45_000_000) by (nonlinear_arith)
        requires
            1000 * t1 <= 45 * u,
            1_000_000_000_000_000_000 * t2 <= 45_000_000_000_000_000 * (1_000_000_000 - u),
            0 <= u <= 1_000_000_000,
            t1 >= 0,
            t2 >= 0,
    ;
    if u == 0 {
        lemma_basic_div(0, 1000);
        lemma_basic_div(0, 1_000_000_000_000_000_000);
    }
    if u == 1_000_000_000 {
        assert(hump == 0) by (nonlinear_arith)
            requires
                hump == u * ((1_000_000_000 - u) * inner),
                u == 1_000_000_000,
        ;
        lemma_basic_div(0, 1_000_000_000_000_000_000);
    }
}

/// The arctangent in microdegrees of a slope scaled by 1e9, executable.
fn atan_ratio_ud(u: i64) -> (r: i64)
    requires
        0 <= u <= 1_000_000_000,
    ensures
        r == atan_ratio(u as int),
        0 <= r <= 45_000_000,
{
    proof {
        lemma_atan_ratio_range(u as int);
        lemma_div_pos_is_pos(3_798_900 * u, 1_000_000_000);
        lemma_div_is_ordered(3_798_900 * (u as int), (1_000_000_000 * 3_798_900) as int, 1_000_000_000);
        lemma_div_multiples_vanish(3_798_900, 1_000_000_000);
    }
    let inner: u128 = 14_020_700 + (3_798_900 * (u as u128)) / 1_000_000_000;
    proof {
        assert(((1_000_000_000 - u) as int) * (inner as int) <= 1_000_000_000 * 17_819_600)
            by (nonlinear_arith)
            requires
                0 <= (1_000_000_000 - u) as int <= 1_000_000_000,
                0 <= inner as int <= 17_819_600,
        ;
        assert((u as int) * (((1_000_000_000 - u) as int) * (inner as int))
            <= 1_000_000_000 * (1_000_000_000 * 17_819_600)) by (nonlinear_arith)
            requires
                0 <= u <= 1_000_000_000,
                0 <= ((1_000_000_000 - u) as int) * (inner as int) <= 1_000_000_000 * 17_819_600,
        ;
        assert((u as int) * (((1_000_000_000 - u) as int) * (inner as int)) >= 0)
            by (nonlinear_arith)
            requires
                0 <= u,
                0 <= (1_000_000_000 - u) as int,
                0 <= inner as int,
        ;
    }
    let t1: u128 = (45 * (u as u128)) / 1000;
    let t2: u128 = ((u as u128) * (((1_000_000_000 - u) as u128) * inner))
        / 1_000_000_000_000_000_000;
    (t1 + t2) as i64
}

/// The angle in microdegrees of the point `(x, y)`, measured from the
/// positive x axis, in (-180e6, 180e6]. Both arguments zero give zero.
pub open spec fn atan2_spec(y: int, x: int) -> int {
    if y == 0 {
        if x >= 0 {
            0int
        } else {
            180_000_000int
        }
    } else if x == 0 {
        if y > 0 {
            90_000_000int
        } else {
            -90_000_000int
        }
    } else {
        let ax = if x < 0 {
            -x
        } else {
            x
        };
        let ay = if y < 0 {
            -y
        } else {
            y
        };
        let base = if ay <= ax {
            atan_ratio((ay * 1_000_000_000) / ax)
        } else {
            90_000_000 - atan_ratio((ax * 1_000_000_000) / ay)
        };
        if x > 0 {
            if y > 0 {
                base
            } else {
                -base
            }
        } else if base == 0 {
            180_000_000int
        } else if y > 0 {
            180_000_000 - base
        } else {
            base - 180_000_000
        }
    }
}

/// In the octant-reduction step of the arctangent, the scaled slope of
/// the smaller magnitude over the larger lies in [0, 1e9].
pub proof fn lemma_slope_in_unit(small: int, large: int)
    requires
        0 <= small <= large,
        0 < large,
    ensures
        0 <= (small * 1_000_000_000) / large <= 1_000_000_000,
{
    lemma_div_pos_is_pos(small * 1_000_000_000, large);
    lemma_div_is_ordered(small * 1_000_000_000, large * 1_000_000_000, large);
    lemma_div_multiples_vanish(1_000_000_000, large);
}

/// The arctangent of a point lies in (-180e6, 180e6], with each axis
/// mapped exactly and each half-plane mapped into its own half-turn.
pub proof fn lemma_atan2_range(y: int, x: int)
    ensures
        -180_000_000 < atan2_spec(y, x) <= 180_000_000,
        y > 0 ==> 0 <= atan2_spec(y, x) <= 180_000_000,
        y < 0 && atan2_spec(y, x) < 180_000_000 ==> -180_000_000 < atan2_spec(y, x) <= 0,
        y == 0 && x >= 0 ==> atan2_spec(y, x) == 0,
        y == 0 && x < 0 ==> atan2_spec(y, x) == 180_000_000,
        x == 0 && y > 0 ==> atan2_spec(y, x) == 90_000_000,
        x == 0 && y < 0 ==> atan2_spec(y, x) == -90_000_000,
{
    if y != 0 && x != 0 {
        let ax = if x < 0 {
            -x
        } else {
            x
        };
        let ay = if y < 0 {
            -y
        } else {
            y
        };
        if ay <= ax {
            lemma_slope_in_unit(ay, ax);
            lemma_atan_ratio_range((ay * 1_000_000_000) / ax);
        } else {
            lemma_slope_in_unit(ax, ay);
            lemma_atan_ratio_range((ax * 1_000_000_000) / ay);
        }
    }
}

/// The angle in microdegrees of the point `(x, y)`, measured from the
/// positive x axis, in (-180e6, 180e6].
///
/// The magnitude bound on the arguments keeps their negation
/// representable; every caller works with far smaller values.
pub fn atan2_ud(y: i64, x: i64) -> (r: i64)
    requires
        -0x4000_0000_0000_0000 <= y <= 0x4000_0000_0000_0000,
        -0x4000_0000_0000_0000 <= x <= 0x4000_0000_0000_0000,
    ensures
        r == atan2_spec(y as int, x as int),
        -180_000_000 < r <= 180_000_000,
{
    proof {
        lemma_atan2_range(y as int, x as int);
    }
    if y == 0 {
        if x >= 0 {
            0
        } else {
            180_000_000
        }
    } else if x == 0 {
        if y > 0 {
            90_000_000
        } else {
            -90_000_000
        }
    } else {
        let ax: i64 = if x < 0 {
            -x
        } else {
            x
        };
        let ay: i64 = if y < 0 {
            -y
        } else {
            y
        };
        let base: i64 = if ay <= ax {
            proof {
                lemma_slope_in_unit(ay as int, ax as int);
            }
            atan_ratio_ud((((ay as u128) * 1_000_000_000) / (ax as u128)) as i64)
        } else {
            proof {
                lemma_slope_in_unit(ax as int, ay as int);
            }
            90_000_000 - atan_ratio_ud((((ax as u128) * 1_000_000_000) / (ay as u128)) as i64)
        };
        if x > 0 {
            if y > 0 {
                base
            } else {
                -base
            }
        } else if base == 0 {
            180_000_000
        } else if y > 0 {
            180_000_000 - base
        } else {
            base - 180_000_000
        }
    }
}

/// Whether `r` is the integer square root of `n`: the largest integer
/// whose square does not exceed `n`.
pub open spec fn is_isqrt(n: int, r: int) -> bool {
    0 <= r && r * r <= n < (r + 1) * (r + 1)
}

/// The integer square root of a non-negative integer.
pub open spec fn isqrt_of(n: int) -> int {
    choose|r: int| is_isqrt(n, r)
}

/// Every non-negative integer has an integer square root.
pub proof fn lemma_isqrt_exists(n: int)
    requires
        n >= 0,
    ensures
        is_isqrt(n, isqrt_of(n)),
    decreases n,
{
    if n == 0 {
        assert(is_isqrt(0, 0)) by (nonlinear_arith);
    } else {
        lemma_isqrt_exists(n - 1);
        let r = isqrt_of(n - 1);
        if n < (r + 1) * (r + 1) {
            assert(is_isqrt(n, r));
        } else {
            assert(is_isqrt(n, r + 1)) by (nonlinear_arith)
                requires
                    is_isqrt(n - 1, r),
                    n >= (r + 1) * (r + 1),
            ;
        }
    }
}

/// The integer square root is unique.
pub proof fn lemma_isqrt_unique(n: int, a: int, b: int)
    requires
        is_isqrt(n, a),
        is_isqrt(n, b),
    ensures
        a == b,
{
    assert(a == b) by (nonlinear_arith)
        requires
            0 <= a && a * a <= n < (a + 1) * (a + 1),
            0 <= b && b * b <= n < (b + 1) * (b + 1),
    ;
}

/// The integer square root: the largest integer whose square does not
/// exceed `n`.
pub fn isqrt_u64(n: u64) -> (r: u64)
    ensures
        is_isqrt(n as int, r as int),
        r == isqrt_of(n as int),
        r <= 4_294_967_295,
{
    let mut lo: u64 = 0;
    let mut hi: u64 = if n < 4_294_967_295 {
        n
    } else {
        4_294_967_295
    };
    proof {
        assert(n < ((hi + 1) as int) * ((hi + 1) as int)) by (nonlinear_arith)
            requires
                hi == (if n < 4_294_967_295 {
                    n as int
                } else {
                    4_294_967_295int
                }),
                n <= 0xffff_ffff_ffff_ffff,
        ;
    }
    while lo < hi
        invariant
            lo <= hi <= 4_294_967_295,
            (lo as int) * (lo as int) <= n,
            n < ((hi + 1) as int) * ((hi + 1) as int),
        decreases hi - lo,
    {
        let mid: u64 = lo + (hi - lo + 1) / 2;
        proof {
            assert((mid as int) * (mid as int) <= 4_294_967_295 * 4_294_967_295)
                by (nonlinear_arith)
                requires
                    0 <= mid <= 4_294_967_295,
            ;
        }
        let sq: u128 = (mid as u128) * (mid as u128);
        if sq <= n as u128 {
            lo = mid;
        } else {
            hi = mid - 1;
        }
    }
    proof {
        lemma_isqrt_exists(n as int);
        lemma_isqrt_unique(n as int, lo as int, isqrt_of(n as int));
    }
    lo
}

/// The integer square root of a wide value: the largest integer whose
/// square does not exceed `n`.
pub fn isqrt_u128(n: u128) -> (r: u64)
    ensures
        is_isqrt(n as int, r as int),
        r == isqrt_of(n as int),
{
    let mut lo: u64 = 0;
    let mut hi: u64 = if n < 18_446_744_073_709_551_615 {
        n as u64
    } else {
        18_446_744_073_709_551_615
    };
    proof {
        assert(n < ((hi + 1) as int) * ((hi + 1) as int)) by (nonlinear_arith)
            requires
                hi == (if n < 18_446_744_073_709_551_615 {
                    n as int
                } else {
                    18_446_744_073_709_551_615int
                }),
                n <= 0xffffffff_ffffffff_ffffffff_ffffffff,
        ;
    }
    while lo < hi
        invariant
            lo <= hi <= 18_446_744_073_709_551_615,
            (lo as int) * (lo as int) <= n,
            n < ((hi + 1) as int) * ((hi + 1) as int),
        decreases hi - lo,
    {
        let mid: u64 = lo + (hi - lo) / 2 + 1;
        proof {
            assert((mid as int) * (mid as int) <= 0xffffffff_ffffffff_ffffffff_ffffffff)
                by (nonlinear_arith)
                requires
                    0 <= mid <= 18_446_744_073_709_551_615,
            ;
        }
        let sq: u128 = (mid as u128) * (mid as u128);
        if sq <= n {
            lo = mid;
        } else {
            hi = mid - 1;
        }
    }
    proof {
        lemma_isqrt_exists(n as int);
        lemma_isqrt_unique(n as int, lo as int, isqrt_of(n as int));
    }
    lo
}

/// Against a non-negative x axis the arctangent stays within a quarter
/// turn of zero: the right half-plane maps into [-90e6, 90e6].
pub proof fn lemma_atan2_right_halfplane(y: int, x: int)
    requires
        x >= 0,
    ensures
        -90_000_000 <= atan2_spec(y, x) <= 90_000_000,
{
    lemma_atan2_range(y, x);
    if y != 0 && x != 0 {
        let ax = if x < 0 { -x } else { x };
        let ay = if y < 0 { -y } else { y };
        if ay <= ax {
            lemma_slope_in_unit(ay, ax);
            lemma_atan_ratio_range((ay * 1_000_000_000) / ax);
        } else {
            lemma_slope_in_unit(ax, ay);
            lemma_atan_ratio_range((ax * 1_000_000_000) / ay);
        }
    }
}

/// Directions behind the sensor plane: between a quarter turn and a
/// half turn the cosine is strictly negative, reaching exactly minus
/// the scale at the half turn.
pub proof fn lemma_cos_back_hemisphere(p: int)
    requires
        90_000_000 < p <= 180_000_000,
    ensures
        -1_000_000_000 <= cos_spec(p) <= -1,
{
    let shifted = p + 90_000_000;
    assert(reduce_turn(shifted) == reduce_turn(shifted - 360_000_000));
    assert(reduce_turn(shifted - 360_000_000) == shifted - 360_000_000);
    lemma_bhaskara_range(360_000_000 - shifted);
}

} // verus!
