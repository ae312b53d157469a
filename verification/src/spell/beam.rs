//! Beam spell.
//!
//! Casting attaches a beam effect to the caster, oriented along the facing
//! direction (defaulting to +X) and offset half a beam-length ahead.  The
//! beam lives a fixed two seconds and re-fires a fresh 200 ms-bound hitbox
//! every 200 ms for its whole duration, so a target continuously inside
//! the beam is hit once per 200 ms.  Each hit deals flat damage; the beam
//! never despawns on a hit.

use vstd::prelude::*;

verus! {

use crate::geom::Vec2i;
use crate::living_entity::FacingDirection;
use crate::spell::hitbox::HitOutcome;
use crate::timer::OnceTimer;
use crate::timer::RepeatTimer;

/// A cast request targeted at a caster entity.
pub struct CastBeamSpell;

pub const BEAM_DAMAGE: i32 = 1;

/// Whole lifetime of one beam, in milliseconds.
pub const BEAM_LIVE_MS: u32 = 2000;

/// A fresh hitbox is fired this often, each bound to the same span.
pub const BEAM_HITBOX_MS: u32 = 200;

/// Milliseconds per cosmetic frame.
pub const BEAM_FRAME_MS: u32 = 100;

/// The cosmetic frames cycle over this many frames.
pub const BEAM_FRAMES: u32 = 3;

/// How far ahead of the caster the beam's center sits, in world units.
pub const BEAM_OFFSET: i32 = 400;

#[derive(Clone, Copy, PartialEq, Eq, Structural, Debug)]
pub struct Beam {
    pub live_timer: OnceTimer,
    pub hitbox_timer: RepeatTimer,
    pub frame_timer: RepeatTimer,
    pub frame: u32,
}

#[derive(Clone, Copy, PartialEq, Eq, Structural, Debug)]
pub struct BeamSpawn {
    pub beam: Beam,
    pub direction: Vec2i,
    pub offset: Vec2i,
}

/// What one beam tick asks of the world.
#[derive(Clone, Copy, PartialEq, Eq, Structural, Debug)]
pub struct BeamTick {
    pub spawn_hitbox: bool,
    pub despawn: bool,
}

/// Hitbox extent of the beam, milli-scaled world units.
pub fn beam_hitbox_size() -> (s: Vec2i)
    ensures
        s == (Vec2i { x: 800000, y: 16000 }),
{
    Vec2i { x: 800000, y: 16000 }
}

impl Beam {
    pub open spec fn wf(self) -> bool {
        &&& self.live_timer.wf()
        &&& self.live_timer.duration_ms == BEAM_LIVE_MS
        &&& self.hitbox_timer.wf()
        &&& self.hitbox_timer.period_ms == BEAM_HITBOX_MS
        &&& self.frame_timer.wf()
        &&& self.frame_timer.period_ms == BEAM_FRAME_MS
        &&& self.frame < BEAM_FRAMES
    }

    /// Advance all three timers: request a fresh bounded hitbox whenever
    /// the hitbox timer wraps, cycle the cosmetic frame, and request the
    /// beam's own destruction once its lifetime is over.
    pub fn tick(&mut self, dt_ms: u32) -> (out: BeamTick)
        requires
            old(self).wf(),
        ensures
            final(self).wf(),
            final(self).live_timer.elapsed_ms == (
            if old(self).live_timer.elapsed_ms + dt_ms >= BEAM_LIVE_MS {
                BEAM_LIVE_MS as int
            } else {
                old(self).live_timer.elapsed_ms + dt_ms
            }),
            final(self).hitbox_timer.elapsed_ms == (old(self).hitbox_timer.elapsed_ms + dt_ms)
                % (BEAM_HITBOX_MS as int),
            final(self).frame_timer.elapsed_ms == (old(self).frame_timer.elapsed_ms + dt_ms) % (
            BEAM_FRAME_MS as int),
            out.spawn_hitbox == (old(self).hitbox_timer.elapsed_ms + dt_ms >= BEAM_HITBOX_MS),
            out.despawn == (old(self).live_timer.elapsed_ms + dt_ms >= BEAM_LIVE_MS),
            final(self).frame == (
            if old(self).frame_timer.elapsed_ms + dt_ms >= BEAM_FRAME_MS {
                if old(self).frame + 1 == BEAM_FRAMES {
                    0int
                } else {
                    old(self).frame + 1
                }
            } else {
                old(self).frame as int
            }),
    {
        self.live_timer.tick(dt_ms);
        let fired_hitbox = self.hitbox_timer.tick(dt_ms);
        let fired_frame = self.frame_timer.tick(dt_ms);
        if fired_frame {
            self.frame += 1;
            if self.frame == BEAM_FRAMES {
                self.frame = 0;
            }
        }
        BeamTick { spawn_hitbox: fired_hitbox, despawn: self.live_timer.finished() }
    }

    /// Flat damage per hitbox contact; the beam never despawns on a hit.
    pub fn hit_outcome(&self) -> (o: HitOutcome)
        ensures
            o == (HitOutcome {
                damage: BEAM_DAMAGE,
                knockback: None::<Vec2i>,
                despawn_self: false,
            }),
    {
        HitOutcome { damage: BEAM_DAMAGE, knockback: None, despawn_self: false }
    }
}

/// Resolve a cast: length and orientation are fixed at cast time from the
/// caster's facing, defaulting to +X.
pub fn cast_beam(facing: Option<FacingDirection>) -> (s: BeamSpawn)
    requires
        match facing {
            Some(f) => f.0.is_dir(),
            None => true,
        },
    ensures
        s.beam.wf(),
        s.beam.live_timer == (OnceTimer { elapsed_ms: 0, duration_ms: BEAM_LIVE_MS }),
        s.beam.hitbox_timer == (RepeatTimer { elapsed_ms: 0, period_ms: BEAM_HITBOX_MS }),
        s.beam.frame_timer == (RepeatTimer { elapsed_ms: 0, period_ms: BEAM_FRAME_MS }),
        s.beam.frame == 0,
        s.direction == (match facing {
            Some(f) => f.0,
            None => Vec2i { x: 1000, y: 0 },
        }),
        s.offset.x == BEAM_OFFSET * s.direction.x,
        s.offset.y == BEAM_OFFSET * s.direction.y,
{
    let direction = match facing {
        Some(f) => f.0,
        None => Vec2i { x: 1000, y: 0 },
    };
    BeamSpawn {
        beam: Beam {
            live_timer: OnceTimer::new(BEAM_LIVE_MS),
            hitbox_timer: RepeatTimer::new(BEAM_HITBOX_MS),
            frame_timer: RepeatTimer::new(BEAM_FRAME_MS),
            frame: 0,
        },
        direction,
        offset: direction.times(BEAM_OFFSET),
    }
}

} // verus!
