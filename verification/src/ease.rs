//! Fixed-point ease-out-sine curve.
//!
//! The movement controller accelerates an entity over a fixed window and
//! samples an ease-out-sine curve for the speed multiplier.  Everything is
//! scaled by 1000: a progress of 1000 means the window has fully elapsed,
//! and the result 1000 means full speed.  The curve is the standard
//! rational approximation of `sin(t * pi / 2)` on `[0, 1]`; what matters
//! to callers is pinned exactly by `ease_milli`, and the lemmas below give
//! the properties the movement contracts rely on: the curve is bounded by
//! 1000, non-decreasing, 0 at 0 and exactly 1000 at 1000.

use vstd::prelude::*;

verus! {

use vstd::arithmetic::div_mod::lemma_div_is_ordered;
use vstd::arithmetic::div_mod::lemma_div_is_ordered_by_denominator;
use vstd::arithmetic::div_mod::lemma_div_multiples_vanish;

/// The curve itself, as evaluated by `ease_out_sine_milli`:
/// `4000 * u / (5_000_000 - u)` with `u = p * (2000 - p)`.
pub open spec fn ease_milli(p: int) -> int {
    (4000 * (p * (2000 - p))) / (5000000 - p * (2000 - p))
}

/// Bow of the curve: `u = p * (2000 - p)` grows with `p` on `[0, 1000]`
/// and stays within `[0, 1_000_000]`.
proof fn lemma_bow_bounds(p: int)
    by (nonlinear_arith)
    requires
        0 <= p <= 1000,
    ensures
        0 <= p * (2000 - p) <= 1000000,
        p == 1000 ==> p * (2000 - p) == 1000000,
        p == 0 ==> p * (2000 - p) == 0,
{
}

proof fn lemma_bow_monotone(p1: int, p2: int)
    by (nonlinear_arith)
    requires
        0 <= p1 <= p2 <= 1000,
    ensures
        p1 * (2000 - p1) <= p2 * (2000 - p2),
{
}

/// The curve never exceeds the scale.
pub proof fn lemma_ease_bounds(p: int)
    requires
        0 <= p <= 1000,
    ensures
        0 <= ease_milli(p) <= 1000,
{
    lemma_bow_bounds(p);
    let u = p * (2000 - p);
    assert(4000 * u >= 0) by (nonlinear_arith)
        requires u >= 0;
    lemma_div_is_ordered(0, 4000 * u, 5000000 - u);
    assert(4000 * u <= 1000 * (5000000 - u)) by (nonlinear_arith)
        requires u <= 1000000;
    lemma_div_is_ordered(4000 * u, 1000 * (5000000 - u), 5000000 - u);
    lemma_div_multiples_vanish(1000, 5000000 - u);
}

/// The curve starts at zero and reaches the full scale exactly when the
/// window has fully elapsed.
pub proof fn lemma_ease_endpoints()
    ensures
        ease_milli(0) == 0,
        ease_milli(1000) == 1000,
{
    assert(0int * (2000 - 0) == 0) by (nonlinear_arith);
    assert(1000int * (2000 - 1000) == 1000000) by (nonlinear_arith);
    lemma_div_multiples_vanish(0, 5000000);
    lemma_div_multiples_vanish(1000, 4000000);
    assert(ease_milli(0) == (4000 * 0int) / 5000000);
    assert(ease_milli(1000) == 4000000000int / 4000000);
    assert(4000000000int == 1000 * 4000000);
}

/// The curve is non-decreasing: more elapsed time never slows the entity.
pub proof fn lemma_ease_monotone(p1: int, p2: int)
    requires
        0 <= p1 <= p2 <= 1000,
    ensures
        ease_milli(p1) <= ease_milli(p2),
{
    lemma_bow_bounds(p1);
    lemma_bow_bounds(p2);
    lemma_bow_monotone(p1, p2);
    let u1 = p1 * (2000 - p1);
    let u2 = p2 * (2000 - p2);
    assert(4000 * u1 <= 4000 * u2) by (nonlinear_arith)
        requires u1 <= u2;
    lemma_div_is_ordered_by_denominator(4000 * u1, 5000000 - u2, 5000000 - u1);
    lemma_div_is_ordered(4000 * u1, 4000 * u2, 5000000 - u2);
}

/// Sample the ease-out-sine curve at `p` thousandths of the window.
pub fn ease_out_sine_milli(p: u32) -> (r: u32)
    requires
        p <= 1000,
    ensures
        r == ease_milli(p as int),
        r <= 1000,
        p == 0 ==> r == 0,
        p == 1000 ==> r == 1000,
{
    proof {
        lemma_bow_bounds(p as int);
        lemma_ease_bounds(p as int);
        lemma_ease_endpoints();
    }
    let u: u64 = (p as u64) * (2000 - p as u64);
    let r: u64 = (4000 * u) / (5000000 - u);
    r as u32
}

} // verus!
