//! Bullet spray.
//!
//! Casting attaches a firing session to the caster.  The session fires
//! twenty independent pellets, one every 30 ms, each aimed along the cast
//! direction with a random jitter of up to a quarter radian either way —
//! or in a fully random direction when the caster had no facing — and
//! destroys itself once the count runs out.  Each pellet carries a single
//! untimed hitbox, deals flat damage to whatever it hits, and queues its
//! own destruction on its first hit.

use vstd::prelude::*;

verus! {

use crate::geom::Vec2i;
use crate::living_entity::FacingDirection;
use crate::rng::random_below;
use crate::spell::hitbox::HitOutcome;
use crate::timer::OnceTimer;
use crate::timer::RepeatTimer;
use crate::trig::TWO_PI_MILLI;
use crate::trig::rotate_dir_milli;
use crate::trig::rotate_spec;

/// A cast request targeted at a caster entity.
#[derive(Debug, Default, Clone, Copy, PartialEq, Eq)]
pub struct CastBulletsSpell;

pub const BULLET_DAMAGE: i32 = 1;

/// Pellets fired per session.
pub const NB_BULLETS: u32 = 20;

/// Milliseconds between two pellets.
pub const BULLET_INTERVAL_MS: u32 = 30;

/// A pellet's lifetime, in milliseconds.
pub const BULLET_LIVE_MS: u32 = 5000;

/// A pellet's speed, in world units per second.
pub const BULLET_SPEED: i32 = 300;

/// Aim jitter either way, in milli-radians.
pub const BULLET_JITTER_MILLI: u32 = 250;

/// A firing session, attached to the caster as its own effect entity.
#[derive(Clone, Copy, PartialEq, Eq, Structural, Debug)]
pub struct CastingBullets {
    pub bullets_left: u32,
    pub bullet_timer: RepeatTimer,
    pub fire_direction: Vec2i,
}

/// One flying pellet.
#[derive(Clone, Copy, PartialEq, Eq, Structural, Debug)]
pub struct Bullet {
    pub live_timer: OnceTimer,
    pub spent: bool,
}

/// What one session tick asks of the world: possibly one pellet, fired
/// along `fire`, and the session's own teardown once the count is out.
#[derive(Clone, Copy, PartialEq, Eq, Structural, Debug)]
pub struct BulletsTick {
    pub fire: Option<Vec2i>,
    pub session_done: bool,
}

/// Whether `d` is a legal pellet direction for a session aimed along
/// `aim`: a jittered rotation of the aim, or any direction at all when the
/// caster had no facing.
pub open spec fn bullet_direction_ok(aim: Vec2i, d: Vec2i) -> bool {
    if aim.is_zero() {
        exists|t: int| 0 <= t <= 6282 && d == rotate_spec(Vec2i { x: 1000, y: 0 }, t)
    } else {
        exists|t: int|
            0 <= t <= 6282 && (t <= BULLET_JITTER_MILLI || t >= 6282 - BULLET_JITTER_MILLI) && d
                == rotate_spec(aim, t)
    }
}

impl CastingBullets {
    pub open spec fn wf(self) -> bool {
        &&& self.bullet_timer.wf()
        &&& self.bullet_timer.period_ms == BULLET_INTERVAL_MS
        &&& self.fire_direction.is_dir()
    }

    /// Advance the session: when the interval timer wraps and pellets
    /// remain, fire one along a jittered direction and decrement the
    /// count; the session asks for its own destruction once the count
    /// reaches zero.
    pub fn tick(&mut self, dt_ms: u32) -> (out: BulletsTick)
        requires
            old(self).wf(),
        ensures
            final(self).wf(),
            final(self).fire_direction == old(self).fire_direction,
            final(self).bullet_timer.elapsed_ms == (old(self).bullet_timer.elapsed_ms + dt_ms)
                % (BULLET_INTERVAL_MS as int),
            out.fire is Some == (old(self).bullet_timer.elapsed_ms + dt_ms
                >= BULLET_INTERVAL_MS && old(self).bullets_left > 0),
            final(self).bullets_left == (
            if out.fire is Some {
                old(self).bullets_left - 1
            } else {
                old(self).bullets_left as int
            }),
            out.session_done == (final(self).bullets_left == 0),
            match out.fire {
                Some(d) => d.is_dir() && bullet_direction_ok(old(self).fire_direction, d),
                None => true,
            },
    {
        let fired = self.bullet_timer.tick(dt_ms);
        let fire: Option<Vec2i> = if fired && self.bullets_left > 0 {
            self.bullets_left -= 1;
            let d = jittered_direction(self.fire_direction);
            Some(d)
        } else {
            None
        };
        BulletsTick { fire, session_done: self.bullets_left == 0 }
    }
}

/// Draw a pellet direction: the aim rotated by up to a quarter radian
/// either way, or a fully random direction for a zero aim.
fn jittered_direction(aim: Vec2i) -> (d: Vec2i)
    requires
        aim.is_dir(),
    ensures
        d.is_dir(),
        bullet_direction_ok(aim, d),
{
    if aim.x == 0 && aim.y == 0 {
        let t = random_below(TWO_PI_MILLI + 1);
        rotate_dir_milli(Vec2i { x: 1000, y: 0 }, t)
    } else {
        let j = random_below(2 * BULLET_JITTER_MILLI + 1);
        let t = if j <= BULLET_JITTER_MILLI {
            j
        } else {
            TWO_PI_MILLI + BULLET_JITTER_MILLI - j
        };
        rotate_dir_milli(aim, t)
    }
}

impl Bullet {
    pub open spec fn wf(self) -> bool {
        &&& self.live_timer.wf()
        &&& self.live_timer.duration_ms == BULLET_LIVE_MS
    }

    pub fn new() -> (b: Bullet)
        ensures
            b == (Bullet {
                live_timer: OnceTimer { elapsed_ms: 0, duration_ms: BULLET_LIVE_MS },
                spent: false,
            }),
            b.wf(),
    {
        Bullet { live_timer: OnceTimer::new(BULLET_LIVE_MS), spent: false }
    }

    /// Age the pellet; reports whether its lifetime is over and it must be
    /// queued for destruction.
    pub fn tick(&mut self, dt_ms: u32) -> (despawn: bool)
        requires
            old(self).wf(),
        ensures
            final(self).wf(),
            final(self).spent == old(self).spent,
            final(self).live_timer.elapsed_ms == (
            if old(self).live_timer.elapsed_ms + dt_ms >= BULLET_LIVE_MS {
                BULLET_LIVE_MS as int
            } else {
                old(self).live_timer.elapsed_ms + dt_ms
            }),
            despawn == (old(self).live_timer.elapsed_ms + dt_ms >= BULLET_LIVE_MS),
    {
        self.live_timer.tick(dt_ms);
        self.live_timer.finished()
    }

    /// Flat damage; the pellet queues its own destruction on a hit.
    pub fn hit_outcome(&self) -> (o: HitOutcome)
        ensures
            o == (HitOutcome {
                damage: BULLET_DAMAGE,
                knockback: None::<Vec2i>,
                despawn_self: true,
            }),
    {
        HitOutcome { damage: BULLET_DAMAGE, knockback: None, despawn_self: true }
    }
}

/// Resolve a cast: a session of twenty pellets aimed along the caster's
/// facing, or unaimed when there is none.
pub fn cast_bullets(facing: Option<FacingDirection>) -> (s: CastingBullets)
    requires
        match facing {
            Some(f) => f.0.is_dir(),
            None => true,
        },
    ensures
        s.wf(),
        s.bullets_left == NB_BULLETS,
        s.bullet_timer == (RepeatTimer { elapsed_ms: 0, period_ms: BULLET_INTERVAL_MS }),
        s.fire_direction == (match facing {
            Some(f) => f.0,
            None => Vec2i { x: 0, y: 0 },
        }),
{
    let fire_direction = match facing {
        Some(f) => f.0,
        None => Vec2i::zero(),
    };
    CastingBullets {
        bullets_left: NB_BULLETS,
        bullet_timer: RepeatTimer::new(BULLET_INTERVAL_MS),
        fire_direction,
    }
}

} // verus!
