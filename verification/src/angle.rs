//! Integer angle arithmetic for angles of polarization.
//!
//! An angle of polarization is physically periodic with 180 degrees. Angles
//! are carried in microdegrees, and wrapping brings a value into the closed
//! interval [-90e6, 90e6], whose two endpoints denote the same physical
//! angle.

use vstd::arithmetic::div_mod::{
    lemma_add_mod_noop, lemma_mod_add_multiples_vanish, lemma_mod_equivalence,
    lemma_mod_sub_multiples_vanish, lemma_small_mod,
};
use vstd::prelude::*;

verus! {

/// Two angles in microdegrees denote the same physical angle of
/// polarization exactly when they differ by a whole number of half turns.
pub open spec fn aop_equiv(a: int, b: int) -> bool {
    (a - b) % 180_000_000 == 0
}

/// The result of repeatedly adding or subtracting half turns until the
/// angle lies in [-90e6, 90e6]. Values already in range are unchanged, so
/// both endpoints can be produced.
pub open spec fn wrap_aop(a: int) -> int
    decreases (if a >= 0 { a } else { -a }),
{
    if a > 90_000_000 {
        wrap_aop(a - 180_000_000)
    } else if a < -90_000_000 {
        wrap_aop(a + 180_000_000)
    } else {
        a
    }
}

/// Wrapping never leaves the closed quarter-turn interval.
pub proof fn lemma_wrap_aop_range(a: int)
    ensures
        -90_000_000 <= wrap_aop(a) <= 90_000_000,
    decreases (if a >= 0 { a } else { -a }),
{
    if a > 90_000_000 {
        lemma_wrap_aop_range(a - 180_000_000);
    } else if a < -90_000_000 {
        lemma_wrap_aop_range(a + 180_000_000);
    }
}

/// Wrapping preserves the physical angle.
pub proof fn lemma_wrap_aop_equiv(a: int)
    ensures
        aop_equiv(wrap_aop(a), a),
    decreases (if a >= 0 { a } else { -a }),
{
    if a > 90_000_000 {
        lemma_wrap_aop_equiv(a - 180_000_000);
        let d = wrap_aop(a) - (a - 180_000_000);
        lemma_mod_sub_multiples_vanish(d, 180_000_000);
        assert(wrap_aop(a) - a == -180_000_000 + d);
    } else if a < -90_000_000 {
        lemma_wrap_aop_equiv(a + 180_000_000);
        let d = wrap_aop(a) - (a + 180_000_000);
        lemma_mod_add_multiples_vanish(d, 180_000_000);
        assert(wrap_aop(a) - a == 180_000_000 + d);
    } else {
        lemma_small_mod(0nat, 180_000_000nat);
    }
}

/// Two equivalent angles that lie strictly within one period of each other
/// are equal.
pub proof fn lemma_equiv_close(a: int, b: int)
    requires
        aop_equiv(a, b),
        -180_000_000 < a - b < 180_000_000,
    ensures
        a == b,
{
    let d = a - b;
    if 0 <= d {
        lemma_small_mod(d as nat, 180_000_000nat);
    } else {
        lemma_mod_add_multiples_vanish(d, 180_000_000);
        lemma_small_mod((d + 180_000_000) as nat, 180_000_000nat);
    }
}

/// Equivalence is reflexive.
pub proof fn lemma_equiv_refl(a: int)
    ensures
        aop_equiv(a, a),
{
    lemma_small_mod(0nat, 180_000_000nat);
}

/// Equivalence is symmetric.
pub proof fn lemma_equiv_sym(a: int, b: int)
    requires
        aop_equiv(a, b),
    ensures
        aop_equiv(b, a),
{
    lemma_mod_equivalence(a, b, 180_000_000);
    lemma_mod_equivalence(b, a, 180_000_000);
}

/// Equivalence is transitive.
pub proof fn lemma_equiv_trans(a: int, b: int, c: int)
    requires
        aop_equiv(a, b),
        aop_equiv(b, c),
    ensures
        aop_equiv(a, c),
{
    lemma_mod_equivalence(a, b, 180_000_000);
    lemma_mod_equivalence(b, c, 180_000_000);
    lemma_mod_equivalence(a, c, 180_000_000);
}

/// Equivalent summands give equivalent sums.
pub proof fn lemma_equiv_add(a: int, b: int, c: int, d: int)
    requires
        aop_equiv(a, b),
        aop_equiv(c, d),
    ensures
        aop_equiv(a + c, b + d),
{
    lemma_add_mod_noop(a - b, c - d, 180_000_000);
    lemma_small_mod(0nat, 180_000_000nat);
    assert((a + c) - (b + d) == (a - b) + (c - d));
}

/// Wraps an angle in microdegrees into [-90e6, 90e6] by repeatedly adding
/// or subtracting half turns, exactly as `wrap_aop` describes.
pub fn wrap_aop_ud(a: i64) -> (r: i64)
    ensures
        r == wrap_aop(a as int),
        -90_000_000 <= r <= 90_000_000,
{
    let mut v: i64 = a;
    while v > 90_000_000
        invariant
            wrap_aop(v as int) == wrap_aop(a as int),
        decreases v + 90_000_000,
    {
        v = v - 180_000_000;
    }
    while v < -90_000_000
        invariant
            wrap_aop(v as int) == wrap_aop(a as int),
            v <= 90_000_000,
        decreases 90_000_000 - v,
    {
        v = v + 180_000_000;
    }
    v
}

} // verus!
