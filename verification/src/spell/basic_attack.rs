//! Melee swing.
//!
//! Casting spawns a short-lived effect entity as a child of the caster,
//! offset one swing-length along the facing direction, with a single
//! untimed hitbox covering the whole swing.  The swing steps through its
//! frames every 50 ms and despawns after the last one.  A hit deals flat
//! damage and knocks the target back along the push direction.

use vstd::prelude::*;

verus! {

use crate::geom::Vec2i;
use crate::living_entity::FacingDirection;
use crate::spell::hitbox::HitOutcome;
use crate::timer::RepeatTimer;

/// A cast request targeted at a caster entity.
pub struct CastBasicAttack;

pub const ATTACK_DAMAGE: i32 = 4;

/// Knockback impulse, in world units per second.
pub const ATTACK_KNOCKBACK: i32 = 30;

/// How far ahead of the caster the swing sits, in world units.
pub const ATTACK_OFFSET: i32 = 32;

/// Milliseconds per swing frame.
pub const ATTACK_FRAME_MS: u32 = 50;

/// The swing despawns once this many frames have played.
pub const ATTACK_FRAMES: u32 = 4;

#[derive(Clone, Copy, PartialEq, Eq, Structural, Debug)]
pub struct BasicAttack {
    pub frame_timer: RepeatTimer,
    pub frame: u32,
    pub push_direction: Vec2i,
}

/// Everything a cast produces: the effect component and its offset from
/// the caster.  The hitbox attached alongside is untimed, of fixed size.
#[derive(Clone, Copy, PartialEq, Eq, Structural, Debug)]
pub struct BasicAttackSpawn {
    pub attack: BasicAttack,
    pub offset: Vec2i,
}

/// Square hitbox half-extent of the swing, milli-scaled world units.
pub fn attack_hitbox_size() -> (s: Vec2i)
    ensures
        s == (Vec2i { x: 32000, y: 32000 }),
{
    Vec2i { x: 32000, y: 32000 }
}

impl BasicAttack {
    pub open spec fn wf(self) -> bool {
        &&& self.frame_timer.wf()
        &&& self.frame_timer.period_ms == ATTACK_FRAME_MS
        &&& self.push_direction.is_dir()
        &&& self.frame <= ATTACK_FRAMES
    }

    /// Step the swing's frame; reports whether the final frame has played
    /// and the effect entity must be queued for destruction.
    pub fn tick(&mut self, dt_ms: u32) -> (despawn: bool)
        requires
            old(self).wf(),
            old(self).frame < ATTACK_FRAMES,
        ensures
            final(self).wf(),
            final(self).push_direction == old(self).push_direction,
            final(self).frame_timer.period_ms == old(self).frame_timer.period_ms,
            final(self).frame_timer.elapsed_ms == (old(self).frame_timer.elapsed_ms + dt_ms) % (
            ATTACK_FRAME_MS as int),
            final(self).frame == (
            if old(self).frame_timer.elapsed_ms + dt_ms >= ATTACK_FRAME_MS {
                old(self).frame + 1
            } else {
                old(self).frame as int
            }),
            despawn == (final(self).frame == ATTACK_FRAMES),
    {
        let fired = self.frame_timer.tick(dt_ms);
        if fired {
            self.frame += 1;
        }
        self.frame == ATTACK_FRAMES
    }

    /// Flat damage plus a knockback impulse along the push direction; the
    /// swing itself never despawns on a hit.
    pub fn hit_outcome(&self) -> (o: HitOutcome)
        requires
            self.wf(),
        ensures
            o.damage == ATTACK_DAMAGE,
            o.knockback == Some(
                Vec2i {
                    x: (ATTACK_KNOCKBACK * self.push_direction.x) as i32,
                    y: (ATTACK_KNOCKBACK * self.push_direction.y) as i32,
                },
            ),
            !o.despawn_self,
    {
        HitOutcome {
            damage: ATTACK_DAMAGE,
            knockback: Some(self.push_direction.times(ATTACK_KNOCKBACK)),
            despawn_self: false,
        }
    }
}

/// Resolve a cast: the push direction and offset follow the caster's
/// facing; a caster without one swings in place with no knockback
/// direction.
pub fn cast_basic_attack(facing: Option<FacingDirection>) -> (s: BasicAttackSpawn)
    requires
        match facing {
            Some(f) => f.0.is_dir(),
            None => true,
        },
    ensures
        s.attack.wf(),
        s.attack.frame == 0,
        s.attack.frame_timer == (RepeatTimer { elapsed_ms: 0, period_ms: ATTACK_FRAME_MS }),
        match facing {
            Some(f) => {
                &&& s.attack.push_direction == f.0
                &&& s.offset.x == ATTACK_OFFSET * f.0.x
                &&& s.offset.y == ATTACK_OFFSET * f.0.y
            },
            None => {
                &&& s.attack.push_direction == (Vec2i { x: 0, y: 0 })
                &&& s.offset == (Vec2i { x: 0, y: 0 })
            },
        },
{
    let (push_direction, offset) = match facing {
        Some(f) => (f.0, f.0.times(ATTACK_OFFSET)),
        None => (Vec2i::zero(), Vec2i::zero()),
    };
    BasicAttackSpawn {
        attack: BasicAttack {
            frame_timer: RepeatTimer::new(ATTACK_FRAME_MS),
            frame: 0,
            push_direction,
        },
        offset,
    }
}

} // verus!
