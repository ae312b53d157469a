//! Fixed-point 2D vectors.
//!
//! A direction is a pre-normalized unit vector whose components are scaled
//! by 1000, so each component lies in `[-1000, 1000]`.  Positions, offsets
//! and velocities use the same scale: a vector component of 1000 stands
//! for one world unit (or one world unit per second).

use vstd::prelude::*;

verus! {

#[derive(Clone, Copy, PartialEq, Eq, Structural, Debug)]
pub struct Vec2i {
    pub x: i32,
    pub y: i32,
}

/// Scale a milli-scaled component by a milli-scaled multiplier, rounding
/// toward zero, as `scale_dir_milli` computes it.
pub open spec fn scale_milli(c: int, m: int) -> int {
    if c >= 0 {
        (c * m) / 1000
    } else {
        -(((-c) * m) / 1000)
    }
}

impl Vec2i {
    pub open spec fn is_dir(self) -> bool {
        &&& -1000 <= self.x <= 1000
        &&& -1000 <= self.y <= 1000
    }

    pub open spec fn is_zero(self) -> bool {
        self.x == 0 && self.y == 0
    }

    pub fn zero() -> (v: Vec2i)
        ensures
            v == (Vec2i { x: 0, y: 0 }),
    {
        Vec2i { x: 0, y: 0 }
    }

    /// The counter-clockwise perpendicular of a direction.
    pub fn perp(self) -> (r: Vec2i)
        requires
            self.is_dir(),
        ensures
            r.x == -self.y,
            r.y == self.x,
            r.is_dir(),
    {
        Vec2i { x: -self.y, y: self.x }
    }

    /// A direction stretched by a whole number of world units.
    pub fn times(self, k: i32) -> (r: Vec2i)
        requires
            self.is_dir(),
            0 <= k <= 1000000,
        ensures
            r.x == k * self.x,
            r.y == k * self.y,
            -1000000000 <= r.x <= 1000000000,
            -1000000000 <= r.y <= 1000000000,
    {
        proof {
            assert(-1000000000 <= k * self.x <= 1000000000) by (nonlinear_arith)
                requires -1000 <= self.x <= 1000 && 0 <= k <= 1000000;
            assert(-1000000000 <= k * self.y <= 1000000000) by (nonlinear_arith)
                requires -1000 <= self.y <= 1000 && 0 <= k <= 1000000;
        }
        Vec2i { x: k * self.x, y: k * self.y }
    }

    pub fn plus(self, o: Vec2i) -> (r: Vec2i)
        requires
            -1000000000 <= self.x + o.x <= 1000000000,
            -1000000000 <= self.y + o.y <= 1000000000,
        ensures
            r.x == self.x + o.x,
            r.y == self.y + o.y,
    {
        Vec2i { x: self.x + o.x, y: self.y + o.y }
    }
}

/// Scale a direction by a milli-scaled speed multiplier `m` (at most
/// 1_000_000, i.e. a thousand world units per second), giving a velocity.
pub fn scale_dir_milli(d: Vec2i, m: u32) -> (v: Vec2i)
    requires
        d.is_dir(),
        m <= 1000000,
    ensures
        v.x == scale_milli(d.x as int, m as int),
        v.y == scale_milli(d.y as int, m as int),
{
    let vx = scale_component_milli(d.x, m);
    let vy = scale_component_milli(d.y, m);
    Vec2i { x: vx, y: vy }
}

fn scale_component_milli(c: i32, m: u32) -> (r: i32)
    requires
        -1000 <= c <= 1000,
        m <= 1000000,
    ensures
        r == scale_milli(c as int, m as int),
{
    proof {
        lemma_scale_milli_bounds(c as int, m as int);
    }
    if c >= 0 {
        let p: u64 = (c as u64) * (m as u64);
        (p / 1000) as i32
    } else {
        let a: u64 = (-c) as u64;
        let p: u64 = a * (m as u64);
        -((p / 1000) as i32)
    }
}

/// The scaled component never exceeds the speed multiplier in magnitude.
pub proof fn lemma_scale_milli_bounds(c: int, m: int)
    requires
        -1000 <= c <= 1000,
        0 <= m <= 1000000,
    ensures
        -m <= scale_milli(c, m) <= m,
        c >= 0 ==> scale_milli(c, m) == (c * m) / 1000,
        c < 0 ==> scale_milli(c, m) == -(((-c) * m) / 1000),
        c == 1000 ==> scale_milli(c, m) == m,
{
    let a = if c >= 0 { c } else { -c };
    assert(0 <= a * m <= 1000 * m) by (nonlinear_arith)
        requires 0 <= a <= 1000 && 0 <= m;
    vstd::arithmetic::div_mod::lemma_div_is_ordered(0, a * m, 1000);
    vstd::arithmetic::div_mod::lemma_div_is_ordered(a * m, 1000 * m, 1000);
    vstd::arithmetic::div_mod::lemma_div_multiples_vanish(m, 1000);
    assert(1000 * m == m * 1000) by (nonlinear_arith);
}

/// A larger speed multiplier never shrinks a scaled component's magnitude:
/// easing up accelerates, component by component.
pub proof fn lemma_scale_milli_monotone(c: int, m1: int, m2: int)
    requires
        -1000 <= c <= 1000,
        0 <= m1 <= m2 <= 1000000,
    ensures
        c >= 0 ==> scale_milli(c, m1) <= scale_milli(c, m2),
        c < 0 ==> scale_milli(c, m2) <= scale_milli(c, m1),
{
    let a = if c >= 0 { c } else { -c };
    assert(a * m1 <= a * m2) by (nonlinear_arith)
        requires 0 <= a && m1 <= m2;
    vstd::arithmetic::div_mod::lemma_div_is_ordered(a * m1, a * m2, 1000);
}

} // verus!
