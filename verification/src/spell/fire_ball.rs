//! Fireball and its secondary shards.
//!
//! Casting launches an independent projectile along the caster's facing
//! (defaulting to +X) with a ten-second lifetime and one persistent
//! untimed hitbox.  The fireball pierces: a hit deals flat damage and
//! never queues the fireball's own destruction, so sequential hits over
//! its flight each deduct damage independently.  Every 20 ms of flight it
//! sheds a small shard: a one-second projectile flying in a random
//! direction with its own untimed hitbox, dealing lower flat damage and
//! queueing its own destruction on its first hit.

use vstd::prelude::*;

verus! {

use crate::geom::Vec2i;
use crate::living_entity::FacingDirection;
use crate::rng::random_below;
use crate::spell::hitbox::HitOutcome;
use crate::timer::OnceTimer;
use crate::timer::RepeatTimer;
use crate::trig::TWO_PI_MILLI;
use crate::trig::rotate_dir_milli;
use crate::trig::rotate_spec;

/// A cast request targeted at a caster entity.
pub struct CastFireBallSpell;

pub const FIRE_BALL_DAMAGE: i32 = 5;

pub const SMALL_FIRE_BALL_DAMAGE: i32 = 1;

/// Fireball lifetime, in milliseconds.
pub const FIRE_BALL_LIVE_MS: u32 = 10000;

/// Milliseconds per cosmetic fireball frame; the frames cycle.
pub const FIRE_BALL_FRAME_MS: u32 = 200;

pub const FIRE_BALL_FRAMES: u32 = 7;

/// A shard is shed this often during flight.
pub const FIRE_BALL_SPAWN_MS: u32 = 20;

/// Fireball speed, in world units per second.
pub const FIRE_BALL_SPEED: i32 = 50;

/// Shard lifetime, in milliseconds.
pub const SMALL_FIRE_BALL_LIVE_MS: u32 = 1000;

pub const SMALL_FIRE_BALL_FRAME_MS: u32 = 50;

pub const SMALL_FIRE_BALL_FRAMES: u32 = 4;

/// Shard speed, in world units per second.
pub const SMALL_FIRE_BALL_SPEED: i32 = 200;

#[derive(Clone, Copy, PartialEq, Eq, Structural, Debug)]
pub struct FireBall {
    pub live_timer: OnceTimer,
    pub frame_timer: RepeatTimer,
    pub frame: u32,
    pub spawn_timer: RepeatTimer,
}

#[derive(Clone, Copy, PartialEq, Eq, Structural, Debug)]
pub struct SmallFireBall {
    pub live_timer: OnceTimer,
    pub frame_timer: RepeatTimer,
    pub frame: u32,
    pub spent: bool,
}

#[derive(Clone, Copy, PartialEq, Eq, Structural, Debug)]
pub struct FireBallSpawn {
    pub fire_ball: FireBall,
    pub velocity: Vec2i,
}

#[derive(Clone, Copy, PartialEq, Eq, Structural, Debug)]
pub struct SmallFireBallSpawn {
    pub shard: SmallFireBall,
    pub velocity: Vec2i,
}

/// What one fireball tick asks of the world.
#[derive(Clone, Copy, PartialEq, Eq, Structural, Debug)]
pub struct FireBallTick {
    pub spawn_shard: bool,
    pub despawn: bool,
}

/// Square hitbox extent of the fireball, milli-scaled world units.
pub fn fire_ball_hitbox_size() -> (s: Vec2i)
    ensures
        s == (Vec2i { x: 32000, y: 32000 }),
{
    Vec2i { x: 32000, y: 32000 }
}

/// Square hitbox extent of a shard, milli-scaled world units.
pub fn small_fire_ball_hitbox_size() -> (s: Vec2i)
    ensures
        s == (Vec2i { x: 8000, y: 8000 }),
{
    Vec2i { x: 8000, y: 8000 }
}

impl FireBall {
    pub open spec fn wf(self) -> bool {
        &&& self.live_timer.wf()
        &&& self.live_timer.duration_ms == FIRE_BALL_LIVE_MS
        &&& self.frame_timer.wf()
        &&& self.frame_timer.period_ms == FIRE_BALL_FRAME_MS
        &&& self.spawn_timer.wf()
        &&& self.spawn_timer.period_ms == FIRE_BALL_SPAWN_MS
        &&& self.frame < FIRE_BALL_FRAMES
    }

    /// Advance the flight: shed a shard whenever the spawn timer wraps,
    /// cycle the cosmetic frame, and request the fireball's own
    /// destruction once its lifetime is over.
    pub fn tick(&mut self, dt_ms: u32) -> (out: FireBallTick)
        requires
            old(self).wf(),
        ensures
            final(self).wf(),
            final(self).live_timer.elapsed_ms == (
            if old(self).live_timer.elapsed_ms + dt_ms >= FIRE_BALL_LIVE_MS {
                FIRE_BALL_LIVE_MS as int
            } else {
                old(self).live_timer.elapsed_ms + dt_ms
            }),
            final(self).spawn_timer.elapsed_ms == (old(self).spawn_timer.elapsed_ms + dt_ms) % (
            FIRE_BALL_SPAWN_MS as int),
            final(self).frame_timer.elapsed_ms == (old(self).frame_timer.elapsed_ms + dt_ms) % (
            FIRE_BALL_FRAME_MS as int),
            out.spawn_shard == (old(self).spawn_timer.elapsed_ms + dt_ms >= FIRE_BALL_SPAWN_MS),
            out.despawn == (old(self).live_timer.elapsed_ms + dt_ms >= FIRE_BALL_LIVE_MS),
            final(self).frame == (
            if old(self).frame_timer.elapsed_ms + dt_ms >= FIRE_BALL_FRAME_MS {
                if old(self).frame + 1 == FIRE_BALL_FRAMES {
                    0int
                } else {
                    old(self).frame + 1
                }
            } else {
                old(self).frame as int
            }),
    {
        self.live_timer.tick(dt_ms);
        let fired_frame = self.frame_timer.tick(dt_ms);
        let fired_spawn = self.spawn_timer.tick(dt_ms);
        if fired_frame {
            self.frame += 1;
            if self.frame == FIRE_BALL_FRAMES {
                self.frame = 0;
            }
        }
        FireBallTick { spawn_shard: fired_spawn, despawn: self.live_timer.finished() }
    }

    /// Flat damage; the fireball pierces and never queues its own
    /// destruction on a hit.
    pub fn hit_outcome(&self) -> (o: HitOutcome)
        ensures
            o == (HitOutcome {
                damage: FIRE_BALL_DAMAGE,
                knockback: None::<Vec2i>,
                despawn_self: false,
            }),
    {
        HitOutcome {
            damage: FIRE_BALL_DAMAGE,
            knockback: None,
            despawn_self: false,
        }
    }
}

impl SmallFireBall {
    pub open spec fn wf(self) -> bool {
        &&& self.live_timer.wf()
        &&& self.live_timer.duration_ms == SMALL_FIRE_BALL_LIVE_MS
        &&& self.frame_timer.wf()
        &&& self.frame_timer.period_ms == SMALL_FIRE_BALL_FRAME_MS
        &&& self.frame < SMALL_FIRE_BALL_FRAMES
    }

    /// Age the shard; reports whether its lifetime is over and it must be
    /// queued for destruction.
    pub fn tick(&mut self, dt_ms: u32) -> (despawn: bool)
        requires
            old(self).wf(),
        ensures
            final(self).wf(),
            final(self).spent == old(self).spent,
            final(self).live_timer.elapsed_ms == (
            if old(self).live_timer.elapsed_ms + dt_ms >= SMALL_FIRE_BALL_LIVE_MS {
                SMALL_FIRE_BALL_LIVE_MS as int
            } else {
                old(self).live_timer.elapsed_ms + dt_ms
            }),
            despawn == (old(self).live_timer.elapsed_ms + dt_ms >= SMALL_FIRE_BALL_LIVE_MS),
            final(self).frame_timer.elapsed_ms == (old(self).frame_timer.elapsed_ms + dt_ms) % (
            SMALL_FIRE_BALL_FRAME_MS as int),
            final(self).frame == (
            if old(self).frame_timer.elapsed_ms + dt_ms >= SMALL_FIRE_BALL_FRAME_MS {
                if old(self).frame + 1 == SMALL_FIRE_BALL_FRAMES {
                    0int
                } else {
                    old(self).frame + 1
                }
            } else {
                old(self).frame as int
            }),
    {
        let despawn = self.live_timer.tick(dt_ms) || self.live_timer.finished();
        let fired_frame = self.frame_timer.tick(dt_ms);
        if fired_frame {
            self.frame += 1;
            if self.frame == SMALL_FIRE_BALL_FRAMES {
                self.frame = 0;
            }
        }
        despawn
    }

    /// Lower flat damage; the shard queues its own destruction on a hit.
    pub fn hit_outcome(&self) -> (o: HitOutcome)
        ensures
            o == (HitOutcome {
                damage: SMALL_FIRE_BALL_DAMAGE,
                knockback: None::<Vec2i>,
                despawn_self: true,
            }),
    {
        HitOutcome {
            damage: SMALL_FIRE_BALL_DAMAGE,
            knockback: None,
            despawn_self: true,
        }
    }
}

/// Resolve a cast: the fireball flies along the caster's facing,
/// defaulting to +X.
pub fn cast_fire_ball(facing: Option<FacingDirection>) -> (s: FireBallSpawn)
    requires
        match facing {
            Some(f) => f.0.is_dir(),
            None => true,
        },
    ensures
        s.fire_ball.wf(),
        s.fire_ball.live_timer == (OnceTimer { elapsed_ms: 0, duration_ms: FIRE_BALL_LIVE_MS }),
        s.fire_ball.spawn_timer == (RepeatTimer { elapsed_ms: 0, period_ms: FIRE_BALL_SPAWN_MS }),
        s.fire_ball.frame_timer == (RepeatTimer { elapsed_ms: 0, period_ms: FIRE_BALL_FRAME_MS }),
        s.fire_ball.frame == 0,
        ({
            let d = match facing {
                Some(f) => f.0,
                None => Vec2i { x: 1000, y: 0 },
            };
            s.velocity.x == FIRE_BALL_SPEED * d.x && s.velocity.y == FIRE_BALL_SPEED * d.y
        }),
{
    let direction = match facing {
        Some(f) => f.0,
        None => Vec2i { x: 1000, y: 0 },
    };
    FireBallSpawn {
        fire_ball: FireBall {
            live_timer: OnceTimer::new(FIRE_BALL_LIVE_MS),
            frame_timer: RepeatTimer::new(FIRE_BALL_FRAME_MS),
            frame: 0,
            spawn_timer: RepeatTimer::new(FIRE_BALL_SPAWN_MS),
        },
        velocity: direction.times(FIRE_BALL_SPEED),
    }
}

/// Shed one shard: a fresh one-second projectile flying in a random
/// direction at shard speed.
pub fn spawn_small_fire_ball() -> (s: SmallFireBallSpawn)
    ensures
        s.shard.wf(),
        !s.shard.spent,
        s.shard.live_timer == (OnceTimer {
            elapsed_ms: 0,
            duration_ms: SMALL_FIRE_BALL_LIVE_MS,
        }),
        s.shard.frame == 0,
        (exists|t: int|
            0 <= t <= 6282 && s.velocity.x == SMALL_FIRE_BALL_SPEED * (#[trigger] rotate_spec(
                Vec2i { x: 1000, y: 0 },
                t,
            )).x && s.velocity.y == SMALL_FIRE_BALL_SPEED * rotate_spec(
                Vec2i { x: 1000, y: 0 },
                t,
            ).y),
{
    let t = random_below(TWO_PI_MILLI + 1);
    let d = rotate_dir_milli(Vec2i { x: 1000, y: 0 }, t);
    SmallFireBallSpawn {
        shard: SmallFireBall {
            live_timer: OnceTimer::new(SMALL_FIRE_BALL_LIVE_MS),
            frame_timer: RepeatTimer::new(SMALL_FIRE_BALL_FRAME_MS),
            frame: 0,
            spent: false,
        },
        velocity: d.times(SMALL_FIRE_BALL_SPEED),
    }
}

} // verus!
