//! Movement state controller.
//!
//! Every entity that carries an `EntityController` is driven once per tick:
//! an `Idle` intent zeroes the velocity and resets the acceleration timer,
//! a `Move` intent advances the timer (clamped to the 200 ms acceleration
//! window), samples the ease-out-sine curve for a speed multiplier, and
//! scales the movement direction by it.  While moving, the entity's facing
//! follows the movement direction; while idle, the facing keeps its last
//! value.  Directions are expected pre-normalized by the caller and are
//! not re-normalized here; a zero direction simply yields zero velocity.

use vstd::prelude::*;

verus! {

use crate::ease::ease_milli;
use crate::ease::ease_out_sine_milli;
use crate::ease::lemma_ease_bounds;
use crate::ease::lemma_ease_endpoints;
use crate::ease::lemma_ease_monotone;
use crate::geom::Vec2i;
use crate::geom::scale_dir_milli;
use crate::geom::scale_milli;
use crate::geom::lemma_scale_milli_bounds;
use crate::geom::lemma_scale_milli_monotone;

/// Marker for an entity that is alive in the world.
pub struct LivingEntity;

#[derive(Clone, Copy, PartialEq, Eq, Structural, Debug, Default)]
pub enum Team {
    #[default]
    Neutral,
    Ally,
    Enemy,
}

/// The direction an entity looks toward; mutated only while moving, read
/// by spell casts.
#[derive(Clone, Copy, PartialEq, Eq, Structural, Debug)]
pub struct FacingDirection(pub Vec2i);

#[derive(Clone, Copy, PartialEq, Eq, Structural, Debug, Default)]
pub enum EntityState {
    #[default]
    Idle,
    Move { direction: Vec2i },
}

/// Tunable movement stats: the top speed in milli-units per second.
#[derive(Clone, Copy, PartialEq, Eq, Structural, Debug)]
pub struct EntityStats {
    pub max_speed: u32,
}

/// Length of the acceleration window, in milliseconds.
pub const ACCEL_WINDOW_MS: u32 = 200;

/// Top speed never exceeds a thousand world units per second.
pub const MAX_SPEED_LIMIT: u32 = 1000000;

/// Per-entity intent-to-velocity resolver with eased acceleration.
#[derive(Clone, Copy, PartialEq, Eq, Structural, Debug)]
pub struct EntityController {
    pub state: EntityState,
    pub stats: EntityStats,
    /// Time spent accelerating, clamped to the window; internal bookkeeping.
    pub accel_elapsed_ms: u32,
}

/// The acceleration timer after one tick of `dt` milliseconds.
pub open spec fn next_elapsed(state: EntityState, elapsed: int, dt: int) -> int {
    match state {
        EntityState::Idle => 0,
        EntityState::Move { direction } => {
            if elapsed + dt >= ACCEL_WINDOW_MS { ACCEL_WINDOW_MS as int } else { elapsed + dt }
        },
    }
}

/// The eased speed multiplier (milli-units per second) for a top speed of
/// `max_speed` after `elapsed` milliseconds of held movement.
pub open spec fn speed_milli_at(max_speed: int, elapsed: int) -> int {
    (max_speed * ease_milli(5 * elapsed)) / 1000
}

impl EntityController {
    pub open spec fn wf(self) -> bool {
        &&& self.accel_elapsed_ms <= ACCEL_WINDOW_MS
        &&& self.stats.max_speed <= MAX_SPEED_LIMIT
        &&& match self.state {
            EntityState::Idle => true,
            EntityState::Move { direction } => direction.is_dir(),
        }
    }

    /// Recompute the velocity for one tick and advance the movement state.
    pub fn tick(&mut self, dt_ms: u32) -> (v: Vec2i)
        requires
            old(self).wf(),
        ensures
            final(self).wf(),
            final(self).state == old(self).state,
            final(self).stats == old(self).stats,
            final(self).accel_elapsed_ms
                == next_elapsed(old(self).state, old(self).accel_elapsed_ms as int, dt_ms as int),
            match old(self).state {
                EntityState::Idle => v == (Vec2i { x: 0, y: 0 }),
                EntityState::Move { direction } => {
                    &&& v.x == scale_milli(
                        direction.x as int,
                        speed_milli_at(
                            old(self).stats.max_speed as int,
                            final(self).accel_elapsed_ms as int,
                        ),
                    )
                    &&& v.y == scale_milli(
                        direction.y as int,
                        speed_milli_at(
                            old(self).stats.max_speed as int,
                            final(self).accel_elapsed_ms as int,
                        ),
                    )
                },
            },
    {
        match self.state {
            EntityState::Idle => {
                self.accel_elapsed_ms = 0;
                Vec2i::zero()
            },
            EntityState::Move { direction } => {
                let e: u32 = if dt_ms >= ACCEL_WINDOW_MS || self.accel_elapsed_ms + dt_ms
                    >= ACCEL_WINDOW_MS {
                    ACCEL_WINDOW_MS
                } else {
                    self.accel_elapsed_ms + dt_ms
                };
                self.accel_elapsed_ms = e;
                let acc: u32 = ease_out_sine_milli(5 * e);
                proof {
                    lemma_ease_bounds(5 * e as int);
                    lemma_speed_bounds(self.stats.max_speed as int, e as int);
                }
                let m: u32 = (((self.stats.max_speed as u64) * (acc as u64)) / 1000) as u32;
                scale_dir_milli(direction, m)
            },
        }
    }

    /// While moving, the facing follows the movement direction; while
    /// idle, it keeps its previous value.
    pub fn update_facing(&self, facing: &mut FacingDirection)
        ensures
            *final(facing) == facing_after(self.state, *old(facing)),
    {
        match self.state {
            EntityState::Idle => {},
            EntityState::Move { direction } => {
                facing.0 = direction;
            },
        }
    }
}

pub open spec fn facing_after(state: EntityState, facing: FacingDirection) -> FacingDirection {
    match state {
        EntityState::Idle => facing,
        EntityState::Move { direction } => FacingDirection(direction),
    }
}

impl Default for EntityController {
    /// A fresh controller: idle, timer at zero, top speed of 50 units.
    fn default() -> (c: EntityController)
        ensures
            c.state == EntityState::Idle,
            c.stats.max_speed == 50000,
            c.accel_elapsed_ms == 0,
            c.wf(),
    {
        EntityController {
            state: EntityState::Idle,
            stats: EntityStats { max_speed: 50000 },
            accel_elapsed_ms: 0,
        }
    }
}

/// The speed multiplier stays within `[0, max_speed]`.
pub proof fn lemma_speed_bounds(max_speed: int, elapsed: int)
    requires
        0 <= max_speed <= MAX_SPEED_LIMIT,
        0 <= elapsed <= ACCEL_WINDOW_MS,
    ensures
        0 <= speed_milli_at(max_speed, elapsed) <= max_speed,
{
    lemma_ease_bounds(5 * elapsed);
    let a = ease_milli(5 * elapsed);
    assert(0 <= max_speed * a <= max_speed * 1000) by (nonlinear_arith)
        requires 0 <= max_speed && 0 <= a <= 1000;
    vstd::arithmetic::div_mod::lemma_div_is_ordered(0, max_speed * a, 1000);
    vstd::arithmetic::div_mod::lemma_div_is_ordered(max_speed * a, max_speed * 1000, 1000);
    vstd::arithmetic::div_mod::lemma_div_multiples_vanish(max_speed, 1000);
    assert(max_speed * 1000 == 1000 * max_speed) by (nonlinear_arith);
}

/// Movement easing is monotone: under a continuously held `Move` intent the
/// speed multiplier never decreases as the acceleration timer advances, and
/// it equals the top speed once the timer has covered the whole window.
pub proof fn lemma_speed_monotone(max_speed: int, e1: int, e2: int)
    requires
        0 <= max_speed <= MAX_SPEED_LIMIT,
        0 <= e1 <= e2 <= ACCEL_WINDOW_MS,
    ensures
        speed_milli_at(max_speed, e1) <= speed_milli_at(max_speed, e2),
        e2 == ACCEL_WINDOW_MS ==> speed_milli_at(max_speed, e2) == max_speed,
{
    lemma_ease_bounds(5 * e1);
    lemma_ease_bounds(5 * e2);
    lemma_ease_monotone(5 * e1, 5 * e2);
    let a1 = ease_milli(5 * e1);
    let a2 = ease_milli(5 * e2);
    assert(max_speed * a1 <= max_speed * a2) by (nonlinear_arith)
        requires 0 <= max_speed && a1 <= a2;
    vstd::arithmetic::div_mod::lemma_div_is_ordered(max_speed * a1, max_speed * a2, 1000);
    if e2 == ACCEL_WINDOW_MS {
        lemma_ease_endpoints();
        assert(5 * e2 == 1000);
        vstd::arithmetic::div_mod::lemma_div_multiples_vanish(max_speed, 1000);
        assert(max_speed * 1000 == 1000 * max_speed) by (nonlinear_arith);
    }
}

/// Velocity components follow the same monotonicity, direction held fixed:
/// each component's magnitude never shrinks while the timer advances.
pub proof fn lemma_velocity_monotone(d: Vec2i, max_speed: int, e1: int, e2: int)
    requires
        d.is_dir(),
        0 <= max_speed <= MAX_SPEED_LIMIT,
        0 <= e1 <= e2 <= ACCEL_WINDOW_MS,
    ensures
        d.x >= 0 ==> scale_milli(d.x as int, speed_milli_at(max_speed, e1))
            <= scale_milli(d.x as int, speed_milli_at(max_speed, e2)),
        d.x < 0 ==> scale_milli(d.x as int, speed_milli_at(max_speed, e2))
            <= scale_milli(d.x as int, speed_milli_at(max_speed, e1)),
        d.y >= 0 ==> scale_milli(d.y as int, speed_milli_at(max_speed, e1))
            <= scale_milli(d.y as int, speed_milli_at(max_speed, e2)),
        d.y < 0 ==> scale_milli(d.y as int, speed_milli_at(max_speed, e2))
            <= scale_milli(d.y as int, speed_milli_at(max_speed, e1)),
{
    lemma_speed_bounds(max_speed, e1);
    lemma_speed_bounds(max_speed, e2);
    lemma_speed_monotone(max_speed, e1, e2);
    lemma_scale_milli_monotone(
        d.x as int,
        speed_milli_at(max_speed, e1),
        speed_milli_at(max_speed, e2),
    );
    lemma_scale_milli_monotone(
        d.y as int,
        speed_milli_at(max_speed, e1),
        speed_milli_at(max_speed, e2),
    );
}

/// Switching to `Idle` and back to `Move` restarts the ease curve from
/// zero: the timer after the first moving tick is the same as from a fresh
/// controller, whatever had elapsed before the idle tick.
pub proof fn lemma_idle_restarts_curve(
    d: Vec2i,
    prior_elapsed: int,
    dt_idle: int,
    dt_move: int,
)
    requires
        0 <= prior_elapsed,
        0 <= dt_idle,
        0 <= dt_move,
    ensures
        next_elapsed(
            EntityState::Move { direction: d },
            next_elapsed(EntityState::Idle, prior_elapsed, dt_idle),
            dt_move,
        ) == next_elapsed(EntityState::Move { direction: d }, 0, dt_move),
{
}

} // verus!
