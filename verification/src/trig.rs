//! Fixed-point sine, cosine and rotation.
//!
//! Angles are counted in milli-radians, with a full turn of 6282 (twice a
//! milli-scaled pi of 3141).  The sine is the standard rational
//! approximation of `sin` on a half turn, mirrored onto the second half;
//! the cosine is the sine shifted a quarter turn.  Results are scaled by
//! 1000 and bounded by 1000 in magnitude, which is the only property the
//! callers' proofs rely on; the exact value is pinned by the spec
//! functions below.

use vstd::prelude::*;

verus! {

use crate::geom::Vec2i;

/// A milli-scaled pi: a half turn, in milli-radians.
pub const PI_MILLI: u32 = 3141;

/// A full turn, in milli-radians.
pub const TWO_PI_MILLI: u32 = 6282;

/// A quarter turn, in milli-radians.
pub const HALF_PI_MILLI: u32 = 1570;

/// The bow `t * (3141 - t)` of the half-turn sine approximation.
pub open spec fn sin_bow(t: int) -> int {
    t * (3141 - t)
}

/// The rational sine approximation on a half turn.
pub open spec fn half_sin(t: int) -> int {
    (16000 * sin_bow(t)) / (49329405 - 4 * sin_bow(t))
}

/// Milli-scaled sine of an angle within one full turn.
pub open spec fn sin_spec(t: int) -> int {
    if t <= 3141 {
        half_sin(t)
    } else {
        -half_sin(t - 3141)
    }
}

/// Milli-scaled cosine: the sine a quarter turn ahead.
pub open spec fn cos_spec(t: int) -> int {
    sin_spec(if t + 1570 < 6282 { t + 1570 } else { t + 1570 - 6282 })
}

proof fn lemma_sin_bow_bounds(t: int)
    by (nonlinear_arith)
    requires
        0 <= t <= 3141,
    ensures
        0 <= sin_bow(t) <= 2466470,
{
    assert((t - 1570) * (t - 1571) >= 0);
}

proof fn lemma_half_sin_bounds(t: int)
    requires
        0 <= t <= 3141,
    ensures
        0 <= half_sin(t) <= 1000,
{
    lemma_sin_bow_bounds(t);
    let u = sin_bow(t);
    assert(0 <= 16000 * u && 16000 * u <= 1000 * (49329405 - 4 * u)) by (nonlinear_arith)
        requires 0 <= u <= 2466470;
    assert(49329405 - 4 * u >= 39463525) by (nonlinear_arith)
        requires u <= 2466470;
    vstd::arithmetic::div_mod::lemma_div_is_ordered(0, 16000 * u, 49329405 - 4 * u);
    vstd::arithmetic::div_mod::lemma_div_is_ordered(
        16000 * u,
        1000 * (49329405 - 4 * u),
        49329405 - 4 * u,
    );
    vstd::arithmetic::div_mod::lemma_div_multiples_vanish(1000, 49329405 - 4 * u);
    assert(1000 * (49329405 - 4 * u) == (49329405 - 4 * u) * 1000) by (nonlinear_arith);
}

fn half_sin_milli(t: u32) -> (r: u32)
    requires
        t <= 3141,
    ensures
        r == half_sin(t as int),
        r <= 1000,
{
    proof {
        lemma_sin_bow_bounds(t as int);
        lemma_half_sin_bounds(t as int);
    }
    let u: u64 = (t as u64) * (3141 - t as u64);
    ((16000 * u) / (49329405 - 4 * u)) as u32
}

/// Milli-scaled sine of an angle in `[0, TWO_PI_MILLI]` milli-radians.
pub fn sin_milli(t: u32) -> (r: i32)
    requires
        t <= TWO_PI_MILLI,
    ensures
        r == sin_spec(t as int),
        -1000 <= r <= 1000,
{
    if t <= PI_MILLI {
        half_sin_milli(t) as i32
    } else {
        -(half_sin_milli(t - PI_MILLI) as i32)
    }
}

/// Milli-scaled cosine of an angle in `[0, TWO_PI_MILLI]` milli-radians.
pub fn cos_milli(t: u32) -> (r: i32)
    requires
        t <= TWO_PI_MILLI,
    ensures
        r == cos_spec(t as int),
        -1000 <= r <= 1000,
{
    let shifted = if t + HALF_PI_MILLI < TWO_PI_MILLI {
        t + HALF_PI_MILLI
    } else {
        t + HALF_PI_MILLI - TWO_PI_MILLI
    };
    sin_milli(shifted)
}

/// Division by 1000 rounding toward zero, as the rotation computes it.
pub open spec fn trunc_div_1000(a: int) -> int {
    if a >= 0 {
        a / 1000
    } else {
        -((-a) / 1000)
    }
}

/// Clamp a component onto the milli unit scale.
pub open spec fn clamp_milli(a: int) -> int {
    if a < -1000 {
        -1000
    } else if a > 1000 {
        1000
    } else {
        a
    }
}

/// A direction rotated by `t` milli-radians, components clamped onto the
/// unit scale.
pub open spec fn rotate_spec(v: Vec2i, t: int) -> Vec2i {
    Vec2i {
        x: clamp_milli(trunc_div_1000(v.x * cos_spec(t) - v.y * sin_spec(t))) as i32,
        y: clamp_milli(trunc_div_1000(v.x * sin_spec(t) + v.y * cos_spec(t))) as i32,
    }
}

proof fn lemma_trunc_div_1000_bounds(a: int, m: int)
    requires
        0 <= m,
        -m <= a <= m,
    ensures
        -m <= trunc_div_1000(a) <= m,
{
    let b = if a >= 0 { a } else { -a };
    vstd::arithmetic::div_mod::lemma_fundamental_div_mod(b, 1000);
    vstd::arithmetic::div_mod::lemma_mod_bound(b, 1000);
    vstd::arithmetic::div_mod::lemma_div_is_ordered(0, b, 1000);
    assert(1000 * (b / 1000) == (b / 1000) * 1000) by (nonlinear_arith);
    assert((b / 1000) * 1000 >= b / 1000) by (nonlinear_arith)
        requires b / 1000 >= 0;
}

fn trunc_div_1000_exec(a: i64) -> (r: i64)
    requires
        -4000000 <= a <= 4000000,
    ensures
        r == trunc_div_1000(a as int),
        -4000000 <= r <= 4000000,
{
    proof {
        lemma_trunc_div_1000_bounds(a as int, 4000000);
    }
    if a >= 0 {
        ((a as u64) / 1000) as i64
    } else {
        -(((-a) as u64 / 1000) as i64)
    }
}

/// Rotate a direction by `t` milli-radians.
pub fn rotate_dir_milli(v: Vec2i, t: u32) -> (r: Vec2i)
    requires
        v.is_dir(),
        t <= TWO_PI_MILLI,
    ensures
        r == rotate_spec(v, t as int),
        r.is_dir(),
{
    let c = cos_milli(t);
    let s = sin_milli(t);
    proof {
        lemma_rot_term_bounds(v.x as int, v.y as int, c as int, s as int);
    }
    let xr: i64 = (v.x as i64) * (c as i64) - (v.y as i64) * (s as i64);
    let yr: i64 = (v.x as i64) * (s as i64) + (v.y as i64) * (c as i64);
    let x = clamp_milli_exec(trunc_div_1000_exec(xr));
    let y = clamp_milli_exec(trunc_div_1000_exec(yr));
    Vec2i { x, y }
}

proof fn lemma_rot_term_bounds(x: int, y: int, c: int, s: int)
    by (nonlinear_arith)
    requires
        -1000 <= x <= 1000,
        -1000 <= y <= 1000,
        -1000 <= c <= 1000,
        -1000 <= s <= 1000,
    ensures
        -1000000 <= x * c <= 1000000,
        -1000000 <= y * s <= 1000000,
        -1000000 <= x * s <= 1000000,
        -1000000 <= y * c <= 1000000,
        -2000000 <= x * c - y * s <= 2000000,
        -2000000 <= x * s + y * c <= 2000000,
{
}

fn clamp_milli_exec(a: i64) -> (r: i32)
    requires
        -4000000 <= a <= 4000000,
    ensures
        r == clamp_milli(a as int),
        -1000 <= r <= 1000,
{
    if a < -1000 {
        -1000
    } else if a > 1000 {
        1000
    } else {
        a as i32
    }
}

} // verus!
