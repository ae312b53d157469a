//! Hitbox dispatch layer.
//!
//! A hitbox is a transient sensor volume owned by the effect entity that
//! created it; it detects contact and never resolves physical response.
//! Collision-begin events against a hitbox are re-routed as `HitEntityEvent`s
//! scoped to the owning effect entity (the routing itself lives in the
//! world module, which owns the parent relation).  A hitbox that carries a
//! time-to-live is queued for destruction when it expires; one without
//! lives until its owner despawns it or dies.

use vstd::prelude::*;

verus! {

use crate::geom::Vec2i;
use crate::timer::OnceTimer;

/// A request to attach a fresh hitbox of the given half-extent to `parent`.
pub struct SpawnHitboxEvent(pub HitboxInfo);

pub struct HitboxInfo {
    pub size: Vec2i,
    pub parent: u64,
    pub ttl_ms: Option<u32>,
}

/// Raised toward an effect entity when one of its hitboxes touches `0`.
#[derive(Clone, Copy, PartialEq, Eq, Structural, Debug)]
pub struct HitEntityEvent(pub u64);

/// A live sensor volume, stored with the effect entity that owns it.
#[derive(Clone, Copy, PartialEq, Eq, Structural, Debug)]
pub struct Hitbox {
    pub id: u64,
    pub size: Vec2i,
    pub ttl: Option<OnceTimer>,
}

impl Hitbox {
    pub open spec fn wf(self) -> bool {
        match self.ttl {
            Some(t) => t.wf(),
            None => true,
        }
    }

    pub open spec fn spec_expired(self) -> bool {
        match self.ttl {
            Some(t) => t.spec_finished(),
            None => false,
        }
    }

    /// Advance the time-to-live, if there is one; reports whether the
    /// hitbox is now expired and must be queued for destruction.
    pub fn tick(&mut self, dt_ms: u32) -> (expired: bool)
        requires
            old(self).wf(),
        ensures
            final(self).wf(),
            final(self).id == old(self).id,
            final(self).size == old(self).size,
            match old(self).ttl {
                None => final(self).ttl is None,
                Some(t) => final(self).ttl == Some(
                    OnceTimer {
                        elapsed_ms: (if t.elapsed_ms + dt_ms >= t.duration_ms {
                            t.duration_ms as int
                        } else {
                            t.elapsed_ms + dt_ms
                        }) as u32,
                        duration_ms: t.duration_ms,
                    },
                ),
            },
            expired == final(self).spec_expired(),
    {
        match &mut self.ttl {
            None => false,
            Some(t) => {
                t.tick(dt_ms);
                t.finished()
            },
        }
    }
}

/// What one hit does to its target: the damage to deduct, an optional
/// knockback impulse (milli-units per second), and whether the hitting
/// effect queues its own destruction.
#[derive(Clone, Copy, PartialEq, Eq, Structural, Debug)]
pub struct HitOutcome {
    pub damage: i32,
    pub knockback: Option<Vec2i>,
    pub despawn_self: bool,
}

} // verus!
