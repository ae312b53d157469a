//! The world: entity table, ownership, event routing and deferred
//! destruction.
//!
//! One logical frame is one `tick`: the per-entity systems run to
//! completion in a fixed declared order — movement, skill reloads, the
//! spell state machines, hitbox upkeep — and destruction requests queued
//! anywhere along the way are applied once, at the tick boundary, never
//! mid-iteration.  Hit events are routed through the ownership relation: a
//! collision against a hitbox is re-raised against the effect entity that
//! owns it, and each spell's handler decides damage, knockback and whether
//! the hitting effect destroys itself.
//!
//! Entity identifiers are drawn from a single counter, so every entity id
//! and every hitbox id is distinct for the lifetime of a world.

use vstd::prelude::*;

verus! {

use crate::geom::Vec2i;
use crate::geom::scale_milli;
use crate::health::Health;
use crate::living_entity::EntityController;
use crate::living_entity::EntityState;
use crate::living_entity::FacingDirection;
use crate::living_entity::facing_after;
use crate::living_entity::next_elapsed;
use crate::living_entity::speed_milli_at;
use crate::skills::skill_reloading;
use crate::skills::skill_ticked;
use crate::skills::SkillTree;
use crate::spell::basic_attack::BasicAttack;
use crate::spell::beam::Beam;
use crate::spell::bullets::Bullet;
use crate::spell::bullets::CastingBullets;
use crate::spell::fire_ball::FireBall;
use crate::spell::fire_ball::SmallFireBall;
use crate::spell::hitbox::HitEntityEvent;
use crate::spell::hitbox::Hitbox;
use crate::spell::hitbox::HitboxInfo;
use crate::spell::hitbox::HitOutcome;
use crate::timer::OnceTimer;

/// The spell component an effect entity carries, one variant per spell
/// shape.
#[derive(Clone, Copy, PartialEq, Eq, Structural, Debug)]
pub enum Effect {
    Swing(BasicAttack),
    BeamEffect(Beam),
    BulletSession(CastingBullets),
    Pellet(Bullet),
    FireBallEffect(FireBall),
    Shard(SmallFireBall),
}

pub open spec fn effect_wf(e: Effect) -> bool {
    match e {
        Effect::Swing(a) => a.wf(),
        Effect::BeamEffect(b) => b.wf(),
        Effect::BulletSession(s) => s.wf(),
        Effect::Pellet(b) => b.wf(),
        Effect::FireBallEffect(f) => f.wf(),
        Effect::Shard(s) => s.wf(),
    }
}

/// What a hit by this effect does, if anything: a firing session never
/// reacts to hits, and a single-hit projectile that has already spent its
/// hit is inert even while its deferred destruction is still pending.
pub open spec fn effect_outcome(e: Effect) -> Option<HitOutcome> {
    match e {
        Effect::Swing(a) => Some(
            HitOutcome {
                damage: crate::spell::basic_attack::ATTACK_DAMAGE,
                knockback: Some(
                    Vec2i {
                        x: (crate::spell::basic_attack::ATTACK_KNOCKBACK * a.push_direction.x) as i32,
                        y: (crate::spell::basic_attack::ATTACK_KNOCKBACK * a.push_direction.y) as i32,
                    },
                ),
                despawn_self: false,
            },
        ),
        Effect::BeamEffect(_) => Some(
            HitOutcome {
                damage: crate::spell::beam::BEAM_DAMAGE,
                knockback: None,
                despawn_self: false,
            },
        ),
        Effect::BulletSession(_) => None,
        Effect::Pellet(b) => if b.spent {
            None
        } else {
            Some(
                HitOutcome {
                    damage: crate::spell::bullets::BULLET_DAMAGE,
                    knockback: None,
                    despawn_self: true,
                },
            )
        },
        Effect::FireBallEffect(_) => Some(
            HitOutcome {
                damage: crate::spell::fire_ball::FIRE_BALL_DAMAGE,
                knockback: None,
                despawn_self: false,
            },
        ),
        Effect::Shard(s) => if s.spent {
            None
        } else {
            Some(
                HitOutcome {
                    damage: crate::spell::fire_ball::SMALL_FIRE_BALL_DAMAGE,
                    knockback: None,
                    despawn_self: true,
                },
            )
        },
    }
}

/// A single-hit projectile with its one hit used up.
pub open spec fn mark_spent(e: Effect) -> Effect {
    match e {
        Effect::Pellet(b) => Effect::Pellet(crate::spell::bullets::Bullet { spent: true, ..b }),
        Effect::Shard(s) => Effect::Shard(
            crate::spell::fire_ball::SmallFireBall { spent: true, ..s },
        ),
        _ => e,
    }
}

/// A health counter after taking `d` damage, clamped to the machine range.
pub open spec fn damaged_health(h: int, d: int) -> int {
    if h - d < i32::MIN {
        i32::MIN as int
    } else if h - d > i32::MAX {
        i32::MAX as int
    } else {
        h - d
    }
}

/// One live entity: its identity, its optional parent (a child is
/// destroyed when its parent is), the components the combat core reads
/// and writes, and the hitbox volumes it owns.
pub struct EntityRec {
    pub id: u64,
    pub parent: Option<u64>,
    pub controller: Option<EntityController>,
    pub facing: Option<FacingDirection>,
    /// Velocity output of the movement controller, read by the physics
    /// collaborator; milli-units per second.
    pub velocity: Vec2i,
    pub health: Option<Health>,
    /// The enemy tag.  Damage resolution is team-blind; the tag is
    /// carried for the enemy-owning collaborator, which watches its own
    /// entities' health for despawn and rewards.
    pub is_enemy: bool,
    pub skills: Option<SkillTree>,
    pub hitboxes: Vec<Hitbox>,
    pub effect: Option<Effect>,
}

/// The record after its health takes `d` damage; a record without health
/// is not actionable and unchanged.
pub open spec fn rec_damaged(r: EntityRec, d: int) -> EntityRec {
    match r.health {
        Some(h) => EntityRec { health: Some(Health(damaged_health(h.0 as int, d) as i32)), ..r },
        None => r,
    }
}

/// The record after its effect spends its single hit.
pub open spec fn rec_spent(r: EntityRec) -> EntityRec {
    match r.effect {
        Some(e) => EntityRec { effect: Some(mark_spent(e)), ..r },
        None => r,
    }
}

/// The record after one movement tick: the controller's acceleration
/// timer advanced, the velocity recomputed, and — while moving — the
/// facing set to the movement direction.
pub open spec fn rec_moved(r: EntityRec, dt: int) -> EntityRec {
    match r.controller {
        None => r,
        Some(c) => {
            let e2 = next_elapsed(c.state, c.accel_elapsed_ms as int, dt);
            let c2 = EntityController { accel_elapsed_ms: e2 as u32, ..c };
            let v = match c.state {
                EntityState::Idle => Vec2i { x: 0, y: 0 },
                EntityState::Move { direction } => Vec2i {
                    x: scale_milli(
                        direction.x as int,
                        speed_milli_at(c.stats.max_speed as int, e2),
                    ) as i32,
                    y: scale_milli(
                        direction.y as int,
                        speed_milli_at(c.stats.max_speed as int, e2),
                    ) as i32,
                },
            };
            let f2 = match r.facing {
                Some(f) => Some(facing_after(c.state, f)),
                None => None,
            };
            EntityRec { controller: Some(c2), velocity: v, facing: f2, ..r }
        },
    }
}

/// One spell component after one tick of `dt` milliseconds, exactly as
/// the per-spell `tick` functions advance it.  A swing whose final frame
/// already played is left alone (its destruction is already queued).
pub open spec fn effect_stepped(e: Effect, dt: int) -> Effect {
    match e {
        Effect::Swing(a) => if a.frame < crate::spell::basic_attack::ATTACK_FRAMES {
            Effect::Swing(
                BasicAttack {
                    frame_timer: crate::timer::RepeatTimer {
                        elapsed_ms: ((a.frame_timer.elapsed_ms + dt) % (
                        crate::spell::basic_attack::ATTACK_FRAME_MS as int)) as u32,
                        period_ms: a.frame_timer.period_ms,
                    },
                    frame: (if a.frame_timer.elapsed_ms + dt
                        >= crate::spell::basic_attack::ATTACK_FRAME_MS {
                        a.frame + 1
                    } else {
                        a.frame as int
                    }) as u32,
                    push_direction: a.push_direction,
                },
            )
        } else {
            e
        },
        Effect::BeamEffect(b) => Effect::BeamEffect(
            Beam {
                live_timer: OnceTimer {
                    elapsed_ms: (if b.live_timer.elapsed_ms + dt
                        >= crate::spell::beam::BEAM_LIVE_MS {
                        crate::spell::beam::BEAM_LIVE_MS as int
                    } else {
                        b.live_timer.elapsed_ms + dt
                    }) as u32,
                    duration_ms: b.live_timer.duration_ms,
                },
                hitbox_timer: crate::timer::RepeatTimer {
                    elapsed_ms: ((b.hitbox_timer.elapsed_ms + dt) % (
                    crate::spell::beam::BEAM_HITBOX_MS as int)) as u32,
                    period_ms: b.hitbox_timer.period_ms,
                },
                frame_timer: crate::timer::RepeatTimer {
                    elapsed_ms: ((b.frame_timer.elapsed_ms + dt) % (
                    crate::spell::beam::BEAM_FRAME_MS as int)) as u32,
                    period_ms: b.frame_timer.period_ms,
                },
                frame: (if b.frame_timer.elapsed_ms + dt >= crate::spell::beam::BEAM_FRAME_MS {
                    if b.frame + 1 == crate::spell::beam::BEAM_FRAMES {
                        0int
                    } else {
                        b.frame + 1
                    }
                } else {
                    b.frame as int
                }) as u32,
            },
        ),
        Effect::BulletSession(s) => Effect::BulletSession(
            CastingBullets {
                bullets_left: (if session_fires(s, dt) {
                    s.bullets_left - 1
                } else {
                    s.bullets_left as int
                }) as u32,
                bullet_timer: crate::timer::RepeatTimer {
                    elapsed_ms: ((s.bullet_timer.elapsed_ms + dt) % (
                    crate::spell::bullets::BULLET_INTERVAL_MS as int)) as u32,
                    period_ms: s.bullet_timer.period_ms,
                },
                fire_direction: s.fire_direction,
            },
        ),
        Effect::Pellet(b) => Effect::Pellet(
            Bullet {
                live_timer: OnceTimer {
                    elapsed_ms: (if b.live_timer.elapsed_ms + dt
                        >= crate::spell::bullets::BULLET_LIVE_MS {
                        crate::spell::bullets::BULLET_LIVE_MS as int
                    } else {
                        b.live_timer.elapsed_ms + dt
                    }) as u32,
                    duration_ms: b.live_timer.duration_ms,
                },
                spent: b.spent,
            },
        ),
        Effect::FireBallEffect(f) => Effect::FireBallEffect(
            FireBall {
                live_timer: OnceTimer {
                    elapsed_ms: (if f.live_timer.elapsed_ms + dt
                        >= crate::spell::fire_ball::FIRE_BALL_LIVE_MS {
                        crate::spell::fire_ball::FIRE_BALL_LIVE_MS as int
                    } else {
                        f.live_timer.elapsed_ms + dt
                    }) as u32,
                    duration_ms: f.live_timer.duration_ms,
                },
                frame_timer: crate::timer::RepeatTimer {
                    elapsed_ms: ((f.frame_timer.elapsed_ms + dt) % (
                    crate::spell::fire_ball::FIRE_BALL_FRAME_MS as int)) as u32,
                    period_ms: f.frame_timer.period_ms,
                },
                frame: (if f.frame_timer.elapsed_ms + dt
                    >= crate::spell::fire_ball::FIRE_BALL_FRAME_MS {
                    if f.frame + 1 == crate::spell::fire_ball::FIRE_BALL_FRAMES {
                        0int
                    } else {
                        f.frame + 1
                    }
                } else {
                    f.frame as int
                }) as u32,
                spawn_timer: crate::timer::RepeatTimer {
                    elapsed_ms: ((f.spawn_timer.elapsed_ms + dt) % (
                    crate::spell::fire_ball::FIRE_BALL_SPAWN_MS as int)) as u32,
                    period_ms: f.spawn_timer.period_ms,
                },
            },
        ),
        Effect::Shard(s) => Effect::Shard(
            SmallFireBall {
                live_timer: OnceTimer {
                    elapsed_ms: (if s.live_timer.elapsed_ms + dt
                        >= crate::spell::fire_ball::SMALL_FIRE_BALL_LIVE_MS {
                        crate::spell::fire_ball::SMALL_FIRE_BALL_LIVE_MS as int
                    } else {
                        s.live_timer.elapsed_ms + dt
                    }) as u32,
                    duration_ms: s.live_timer.duration_ms,
                },
                frame_timer: crate::timer::RepeatTimer {
                    elapsed_ms: ((s.frame_timer.elapsed_ms + dt) % (
                    crate::spell::fire_ball::SMALL_FIRE_BALL_FRAME_MS as int)) as u32,
                    period_ms: s.frame_timer.period_ms,
                },
                frame: (if s.frame_timer.elapsed_ms + dt
                    >= crate::spell::fire_ball::SMALL_FIRE_BALL_FRAME_MS {
                    if s.frame + 1 == crate::spell::fire_ball::SMALL_FIRE_BALL_FRAMES {
                        0int
                    } else {
                        s.frame + 1
                    }
                } else {
                    s.frame as int
                }) as u32,
                spent: s.spent,
            },
        ),
    }
}

/// Whether the session fires a pellet during a tick of `dt`.
pub open spec fn session_fires(s: CastingBullets, dt: int) -> bool {
    s.bullet_timer.elapsed_ms + dt >= crate::spell::bullets::BULLET_INTERVAL_MS
        && s.bullets_left > 0
}

/// Whether the beam re-fires a hitbox during a tick of `dt`.
pub open spec fn beam_fires(b: Beam, dt: int) -> bool {
    b.hitbox_timer.elapsed_ms + dt >= crate::spell::beam::BEAM_HITBOX_MS
}

/// Whether the fireball sheds a shard during a tick of `dt`.
pub open spec fn fireball_sheds(f: FireBall, dt: int) -> bool {
    f.spawn_timer.elapsed_ms + dt >= crate::spell::fire_ball::FIRE_BALL_SPAWN_MS
}

/// Whether the effect entity reaches its terminal condition during a tick
/// of `dt` and queues its own destruction: a swing past its final frame, a
/// timed-out beam, projectile or shard, or a firing session whose count
/// ran out.
pub open spec fn effect_despawns(e: Effect, dt: int) -> bool {
    match e {
        Effect::Swing(a) => a.frame < crate::spell::basic_attack::ATTACK_FRAMES
            && a.frame_timer.elapsed_ms + dt >= crate::spell::basic_attack::ATTACK_FRAME_MS
            && a.frame + 1 == crate::spell::basic_attack::ATTACK_FRAMES,
        Effect::BeamEffect(b) => b.live_timer.elapsed_ms + dt >= crate::spell::beam::BEAM_LIVE_MS,
        Effect::BulletSession(s) => (if session_fires(s, dt) {
            s.bullets_left - 1
        } else {
            s.bullets_left as int
        }) == 0,
        Effect::Pellet(b) => b.live_timer.elapsed_ms + dt
            >= crate::spell::bullets::BULLET_LIVE_MS,
        Effect::FireBallEffect(f) => f.live_timer.elapsed_ms + dt
            >= crate::spell::fire_ball::FIRE_BALL_LIVE_MS,
        Effect::Shard(s) => s.live_timer.elapsed_ms + dt
            >= crate::spell::fire_ball::SMALL_FIRE_BALL_LIVE_MS,
    }
}

pub open spec fn rec_effect_despawns(r: EntityRec, dt: int) -> bool {
    match r.effect {
        Some(e) => effect_despawns(e, dt),
        None => false,
    }
}

/// A freshly fired pellet: independent, single untimed hitbox, flying at
/// pellet speed along a direction some firing session legally drew.
pub open spec fn pellet_spawned_ok(w0: World, r: EntityRec, dt: int) -> bool {
    &&& r.parent is None
    &&& r.controller is None
    &&& r.facing is None
    &&& r.health is None
    &&& !r.is_enemy
    &&& r.skills is None
    &&& r.hitboxes@.len() == 1
    &&& r.hitboxes@[0].ttl is None
    &&& r.hitboxes@[0].size == (Vec2i { x: 16000, y: 8000 })
    &&& r.effect == Some(
        Effect::Pellet(
            Bullet {
                live_timer: OnceTimer {
                    elapsed_ms: 0,
                    duration_ms: crate::spell::bullets::BULLET_LIVE_MS,
                },
                spent: false,
            },
        ),
    )
    &&& exists|i: int|
        0 <= i < w0.entities@.len() && (match (#[trigger] w0.entities@[i]).effect {
            Some(Effect::BulletSession(s)) => session_fires(s, dt) && (exists|d: Vec2i|
                d.is_dir() && #[trigger] crate::spell::bullets::bullet_direction_ok(
                    s.fire_direction,
                    d,
                ) && r.velocity.x == crate::spell::bullets::BULLET_SPEED * d.x && r.velocity.y
                    == crate::spell::bullets::BULLET_SPEED * d.y),
            _ => false,
        })
}

/// A freshly shed shard: independent, single untimed hitbox, flying at
/// shard speed in a random direction, shed by some flying fireball.
pub open spec fn shard_spawned_ok(w0: World, r: EntityRec, dt: int) -> bool {
    &&& r.parent is None
    &&& r.controller is None
    &&& r.facing is None
    &&& r.health is None
    &&& !r.is_enemy
    &&& r.skills is None
    &&& r.hitboxes@.len() == 1
    &&& r.hitboxes@[0].ttl is None
    &&& r.hitboxes@[0].size == (Vec2i { x: 8000, y: 8000 })
    &&& (match r.effect {
        Some(Effect::Shard(s)) => s.live_timer == (OnceTimer {
            elapsed_ms: 0,
            duration_ms: crate::spell::fire_ball::SMALL_FIRE_BALL_LIVE_MS,
        }) && !s.spent && s.frame == 0,
        _ => false,
    })
    &&& (exists|t: int|
        0 <= t <= 6282 && r.velocity.x == crate::spell::fire_ball::SMALL_FIRE_BALL_SPEED * (
        #[trigger] crate::trig::rotate_spec(Vec2i { x: 1000, y: 0 }, t)).x && r.velocity.y
            == crate::spell::fire_ball::SMALL_FIRE_BALL_SPEED * crate::trig::rotate_spec(
            Vec2i { x: 1000, y: 0 },
            t,
        ).y)
    &&& exists|i: int|
        0 <= i < w0.entities@.len() && (match (#[trigger] w0.entities@[i]).effect {
            Some(Effect::FireBallEffect(f)) => fireball_sheds(f, dt),
            _ => false,
        })
}

/// What may stand at the end of the entity table after one spell tick.
pub open spec fn spawned_ok(w0: World, r: EntityRec, dt: int) -> bool {
    pellet_spawned_ok(w0, r, dt) || shard_spawned_ok(w0, r, dt)
}

/// How many projectile entities one spell tick of `dt` creates: one
/// pellet per firing session and one shard per shedding fireball.
pub open spec fn spawn_count(s: Seq<EntityRec>, dt: int) -> int
    decreases s.len(),
{
    if s.len() == 0 {
        0
    } else {
        spawn_count(s.drop_last(), dt) + (match s.last().effect {
            Some(Effect::BulletSession(ss)) => if session_fires(ss, dt) {
                1int
            } else {
                0int
            },
            Some(Effect::FireBallEffect(f)) => if fireball_sheds(f, dt) {
                1int
            } else {
                0int
            },
            _ => 0int,
        })
    }
}

/// One movement stage: every record advanced by `rec_moved`, nothing
/// else changed.
pub open spec fn moved_frame(w0: World, w1: World, dt: int) -> bool {
    &&& w1.next_id == w0.next_id
    &&& w1.pending_destroy@ == w0.pending_destroy@
    &&& w1.entities@.len() == w0.entities@.len()
    &&& (forall|j: int|
        #![trigger w1.entities@[j]]
        0 <= j < w0.entities@.len() ==> w1.entities@[j] == rec_moved(w0.entities@[j], dt))
}

/// One skill-reload stage: every skill tree ticked in place, every other
/// component untouched.
pub open spec fn skills_frame(w0: World, w1: World, dt: int) -> bool {
    &&& w1.next_id == w0.next_id
    &&& w1.pending_destroy@ == w0.pending_destroy@
    &&& w1.entities@.len() == w0.entities@.len()
    &&& (forall|j: int|
        #![trigger w1.entities@[j]]
        0 <= j < w0.entities@.len() ==> ({
            let r0 = w0.entities@[j];
            let r1 = w1.entities@[j];
            &&& r1.id == r0.id
            &&& r1.parent == r0.parent
            &&& r1.controller == r0.controller
            &&& r1.facing == r0.facing
            &&& r1.velocity == r0.velocity
            &&& r1.health == r0.health
            &&& r1.is_enemy == r0.is_enemy
            &&& r1.hitboxes@ == r0.hitboxes@
            &&& r1.effect == r0.effect
            &&& (match (r0.skills, r1.skills) {
                (None, None) => true,
                (Some(t0), Some(t1)) => t1@.len() == t0@.len() && (forall|k: int|
                    0 <= k < t0@.len() ==> t1@[k] == skill_ticked(t0@[k], dt)),
                _ => false,
            })
        }))
}

/// One spell stage: every effect stepped (beams gaining their re-fired
/// hitbox), exactly one fresh projectile per firing session or shedding
/// fireball appended, and the destruction queue extended by exactly the
/// effects that reached their terminal condition.
pub open spec fn effects_frame(w0: World, w1: World, dt: int) -> bool {
    &&& w0.next_id <= w1.next_id
    &&& w1.entities@.len() == w0.entities@.len() + spawn_count(w0.entities@, dt)
    &&& (forall|j: int|
        0 <= j < w0.entities@.len() ==> #[trigger] stepped_shape(
            w0.entities@[j],
            w1.entities@[j],
            w0.next_id,
            dt,
        ))
    &&& (forall|j: int|
        #![trigger w1.entities@[j]]
        w0.entities@.len() <= j < w1.entities@.len() ==> (spawned_ok(w0, w1.entities@[j], dt)
            && w1.entities@[j].id >= w0.next_id))
    &&& w0.pending_destroy@.is_prefix_of(w1.pending_destroy@)
    &&& (forall|id: u64|
        #[trigger] w1.pending_destroy@.contains(id) ==> (w0.pending_destroy@.contains(id) || (
        exists|j: int|
            0 <= j < w0.entities@.len() && (#[trigger] w0.entities@[j]).id == id
                && rec_effect_despawns(w0.entities@[j], dt))))
    &&& (forall|id: u64|
        #[trigger] w0.pending_destroy@.contains(id) ==> w1.pending_destroy@.contains(id))
    &&& (forall|j: int|
        0 <= j < w0.entities@.len() && rec_effect_despawns(#[trigger] w0.entities@[j], dt)
            ==> w1.pending_destroy@.contains(w0.entities@[j].id))
}

/// One hitbox-upkeep stage: every time-to-live aged in place and the
/// destruction queue extended by exactly the expired hitboxes.
pub open spec fn hitboxes_frame(w0: World, w1: World, dt: int) -> bool {
    &&& w1.next_id == w0.next_id
    &&& w1.entities@.len() == w0.entities@.len()
    &&& (forall|j: int|
        #![trigger w1.entities@[j]]
        0 <= j < w0.entities@.len() ==> ({
            let r0 = w0.entities@[j];
            let r1 = w1.entities@[j];
            &&& r1.id == r0.id
            &&& r1.parent == r0.parent
            &&& r1.controller == r0.controller
            &&& r1.facing == r0.facing
            &&& r1.velocity == r0.velocity
            &&& r1.health == r0.health
            &&& r1.is_enemy == r0.is_enemy
            &&& r1.skills == r0.skills
            &&& r1.effect == r0.effect
            &&& r1.hitboxes@.len() == r0.hitboxes@.len()
            &&& (forall|k: int|
                0 <= k < r0.hitboxes@.len() ==> r1.hitboxes@[k] == hitbox_ticked(
                    r0.hitboxes@[k],
                    dt,
                ))
        }))
    &&& w0.pending_destroy@.is_prefix_of(w1.pending_destroy@)
    &&& (forall|id: u64|
        w1.pending_destroy@.contains(id) <==> (w0.pending_destroy@.contains(id) || exists|j: int|
            0 <= j < w0.entities@.len() && owns_expiring(#[trigger] w0.entities@[j], id, dt)))
}

/// One synchronization point: the survivors are exactly the entities not
/// destroyed by the queue, in order, with their queued hitboxes stripped,
/// and the queue is then empty.  `kept` maps each survivor to its old
/// index.
pub open spec fn destroys_frame(w0: World, w1: World, kept: Seq<int>) -> bool {
    &&& w1.next_id == w0.next_id
    &&& w1.pending_destroy@ == Seq::<u64>::empty()
    &&& w1.entities@.len() == kept.len()
    &&& (forall|a: int, b: int| 0 <= a < b < kept.len() ==> kept[a] < kept[b])
    &&& (forall|k: int|
        #![trigger kept[k]]
        0 <= k < kept.len() ==> (0 <= kept[k] < w0.entities@.len() && !destroyed(
            w0.entities@[kept[k]],
            w0.pending_destroy@,
        ) && survivor_match(w0.entities@[kept[k]], w1.entities@[k], w0.pending_destroy@)))
    &&& (forall|j: int|
        0 <= j < w0.entities@.len() && !destroyed(
            #[trigger] w0.entities@[j],
            w0.pending_destroy@,
        ) ==> kept.contains(j))
}

/// How a record looks after one spell tick: its effect advanced by
/// `effect_stepped`, everything else untouched, except that a beam whose
/// hitbox timer wrapped gained one fresh 200 ms-bound hitbox whose id is
/// at least `fresh_from`.
pub open spec fn stepped_shape(r0: EntityRec, r1: EntityRec, fresh_from: u64, dt: int) -> bool {
    &&& r1.id == r0.id
    &&& r1.parent == r0.parent
    &&& r1.controller == r0.controller
    &&& r1.facing == r0.facing
    &&& r1.velocity == r0.velocity
    &&& r1.health == r0.health
    &&& r1.is_enemy == r0.is_enemy
    &&& r1.skills == r0.skills
    &&& (match r0.effect {
        Some(e) => r1.effect == Some(effect_stepped(e, dt)),
        None => r1.effect is None,
    })
    &&& (match r0.effect {
        Some(Effect::BeamEffect(b)) => if beam_fires(b, dt) {
            &&& r1.hitboxes@.len() == r0.hitboxes@.len() + 1
            &&& r1.hitboxes@.subrange(0, r0.hitboxes@.len() as int) == r0.hitboxes@
            &&& r1.hitboxes@.last().size == (Vec2i { x: 800000, y: 16000 })
            &&& r1.hitboxes@.last().ttl == Some(
                OnceTimer { elapsed_ms: 0, duration_ms: crate::spell::beam::BEAM_HITBOX_MS },
            )
            &&& r1.hitboxes@.last().id >= fresh_from
        } else {
            r1.hitboxes@ == r0.hitboxes@
        },
        _ => r1.hitboxes@ == r0.hitboxes@,
    })
}

/// Whether a destruction request dooms this entity at the synchronization
/// point: its own id was queued, or its parent's was (children die with
/// their parent).
pub open spec fn destroyed(r: EntityRec, pending: Seq<u64>) -> bool {
    pending.contains(r.id) || (match r.parent {
        Some(p) => pending.contains(p),
        None => false,
    })
}

/// The hitboxes that survive the synchronization point: those whose id
/// was not queued, in order.
pub open spec fn kept_hitboxes(hbs: Seq<Hitbox>, pending: Seq<u64>) -> Seq<Hitbox>
    decreases hbs.len(),
{
    if hbs.len() == 0 {
        Seq::empty()
    } else {
        let init = kept_hitboxes(hbs.drop_last(), pending);
        if pending.contains(hbs.last().id) {
            init
        } else {
            init.push(hbs.last())
        }
    }
}

/// Every surviving hitbox was owned before.
proof fn lemma_kept_hitboxes_subset(hbs: Seq<Hitbox>, pending: Seq<u64>)
    ensures
        forall|k: int|
            0 <= k < kept_hitboxes(hbs, pending).len() ==> hbs.contains(
                #[trigger] kept_hitboxes(hbs, pending)[k],
            ),
    decreases hbs.len(),
{
    if hbs.len() > 0 {
        lemma_kept_hitboxes_subset(hbs.drop_last(), pending);
        let kept = kept_hitboxes(hbs, pending);
        let init = kept_hitboxes(hbs.drop_last(), pending);
        assert forall|k: int| 0 <= k < kept.len() implies hbs.contains(#[trigger] kept[k]) by {
            if k < init.len() {
                assert(hbs.drop_last().contains(init[k]));
                let w = choose|w: int|
                    0 <= w < hbs.drop_last().len() && hbs.drop_last()[w] == init[k];
                assert(hbs[w] == init[k]);
            } else {
                assert(kept[k] == hbs.last());
                assert(hbs[hbs.len() - 1] == hbs.last());
            }
        }
    }
}

/// A survivor of the synchronization point: the same entity with the
/// queued hitboxes stripped.
pub open spec fn survivor_match(r0: EntityRec, r1: EntityRec, pending: Seq<u64>) -> bool {
    &&& r1.id == r0.id
    &&& r1.parent == r0.parent
    &&& r1.controller == r0.controller
    &&& r1.facing == r0.facing
    &&& r1.velocity == r0.velocity
    &&& r1.health == r0.health
    &&& r1.is_enemy == r0.is_enemy
    &&& r1.skills == r0.skills
    &&& r1.effect == r0.effect
    &&& r1.hitboxes@ == kept_hitboxes(r0.hitboxes@, pending)
}

/// A prefix survives one more queued request.
proof fn lemma_prefix_push(a: Seq<u64>, b: Seq<u64>, x: u64)
    requires
        a.is_prefix_of(b),
    ensures
        a.is_prefix_of(b.push(x)),
{
    assert(b.push(x).subrange(0, a.len() as int) =~= b.subrange(0, a.len() as int));
}

/// One hitbox after `dt` milliseconds of time-to-live aging.
pub open spec fn hitbox_ticked(h: Hitbox, dt: int) -> Hitbox {
    match h.ttl {
        None => h,
        Some(t) => Hitbox {
            ttl: Some(
                OnceTimer {
                    elapsed_ms: (if t.elapsed_ms + dt >= t.duration_ms {
                        t.duration_ms as int
                    } else {
                        t.elapsed_ms + dt
                    }) as u32,
                    duration_ms: t.duration_ms,
                },
            ),
            ..h
        },
    }
}

/// Whether this hitbox's time-to-live runs out within `dt` milliseconds.
pub open spec fn hitbox_expires(h: Hitbox, dt: int) -> bool {
    match h.ttl {
        None => false,
        Some(t) => t.elapsed_ms + dt >= t.duration_ms,
    }
}

/// Whether `r` owns a hitbox whose time-to-live runs out within `dt`.
pub open spec fn owns_expiring(r: EntityRec, id: u64, dt: int) -> bool {
    exists|k: int|
        0 <= k < r.hitboxes@.len() && (#[trigger] r.hitboxes@[k]).id == id && hitbox_expires(
            r.hitboxes@[k],
            dt,
        )
}

/// Whether `r` owns a hitbox with identifier `hid`.
pub open spec fn owns(r: EntityRec, hid: u64) -> bool {
    exists|k: int| 0 <= k < r.hitboxes@.len() && (#[trigger] r.hitboxes@[k]).id == hid
}

pub open spec fn rec_wf(r: EntityRec, next_id: u64) -> bool {
    &&& r.id < next_id
    &&& !(r.parent == Some(r.id))
    &&& (match r.controller {
        Some(c) => c.wf(),
        None => true,
    })
    &&& (match r.facing {
        Some(f) => f.0.is_dir(),
        None => true,
    })
    &&& (match r.skills {
        Some(s) => s.wf(),
        None => true,
    })
    &&& (match r.effect {
        Some(e) => effect_wf(e),
        None => true,
    })
    &&& (forall|k: int|
        0 <= k < r.hitboxes@.len() ==> ((#[trigger] r.hitboxes@[k]).wf() && r.hitboxes@[k].id
            < next_id))
}

/// Every hitbox an entity owns has an identifier below the allocation
/// counter.
pub proof fn lemma_owned_bound(r: EntityRec, next_id: u64, hid: u64)
    requires
        rec_wf(r, next_id),
        owns(r, hid),
    ensures
        hid < next_id,
{
    let k = choose|k: int| 0 <= k < r.hitboxes@.len() && (#[trigger] r.hitboxes@[k]).id == hid;
    assert(r.hitboxes@[k].wf() && r.hitboxes@[k].id < next_id);
}

/// A record stays well formed when the allocation counter grows.
pub proof fn lemma_rec_wf_grow(r: EntityRec, n1: u64, n2: u64)
    requires
        rec_wf(r, n1),
        n1 <= n2,
    ensures
        rec_wf(r, n2),
{
}

pub struct World {
    pub entities: Vec<EntityRec>,
    /// Destruction requests, applied only at the tick boundary.
    pub pending_destroy: Vec<u64>,
    pub next_id: u64,
}

impl World {
    /// Identifiers are fresh and unique: no two entities share an id, no
    /// two entities own a hitbox of the same id, and no hitbox shares an
    /// id with an entity.
    pub open spec fn wf(self) -> bool {
        &&& (forall|i: int|
            0 <= i < self.entities@.len() ==> rec_wf(#[trigger] self.entities@[i], self.next_id))
        &&& (forall|i: int, j: int|
            0 <= i < j < self.entities@.len() ==> (#[trigger] self.entities@[i]).id != (
            #[trigger] self.entities@[j]).id)
        &&& (forall|i: int, j: int, hid: u64|
            0 <= i < self.entities@.len() && 0 <= j < self.entities@.len() && i != j ==> !(
            #[trigger] owns(self.entities@[i], hid) && #[trigger] owns(self.entities@[j], hid)))
        &&& (forall|i: int, j: int|
            0 <= i < self.entities@.len() && 0 <= j < self.entities@.len() ==> !(#[trigger] owns(
                self.entities@[j],
                (#[trigger] self.entities@[i]).id,
            )))
    }

    /// Room to draw `n` more identifiers from the counter.
    pub open spec fn can_alloc(self, n: int) -> bool {
        self.next_id + n <= u64::MAX
    }

    pub open spec fn has_entity(self, id: u64) -> bool {
        exists|i: int| 0 <= i < self.entities@.len() && (#[trigger] self.entities@[i]).id == id
    }

    pub fn new() -> (w: World)
        ensures
            w.entities@ == Seq::<EntityRec>::empty(),
            w.pending_destroy@ == Seq::<u64>::empty(),
            w.next_id == 0,
            w.wf(),
    {
        World { entities: Vec::new(), pending_destroy: Vec::new(), next_id: 0 }
    }

    /// Spawn a plain entity — a caster, an enemy, scenery — with the given
    /// components and no effect or hitboxes.
    pub fn spawn_entity(
        &mut self,
        parent: Option<u64>,
        controller: Option<EntityController>,
        facing: Option<FacingDirection>,
        health: Option<Health>,
        is_enemy: bool,
        skills: Option<SkillTree>,
        effect: Option<Effect>,
        velocity: Vec2i,
    ) -> (id: u64)
        requires
            old(self).wf(),
            old(self).can_alloc(1),
            match parent {
                Some(p) => old(self).has_entity(p),
                None => true,
            },
            match controller {
                Some(c) => c.wf(),
                None => true,
            },
            match facing {
                Some(f) => f.0.is_dir(),
                None => true,
            },
            match skills {
                Some(s) => s.wf(),
                None => true,
            },
            match effect {
                Some(e) => effect_wf(e),
                None => true,
            },
        ensures
            final(self).wf(),
            id == old(self).next_id,
            !old(self).has_entity(id),
            final(self).has_entity(id),
            final(self).next_id == old(self).next_id + 1,
            final(self).pending_destroy@ == old(self).pending_destroy@,
            final(self).entities@.len() == old(self).entities@.len() + 1,
            forall|i: int|
                0 <= i < old(self).entities@.len() ==> final(self).entities@[i] == old(self).entities@[i],
            ({
                let r = final(self).entities@.last();
                &&& r.id == id
                &&& r.parent == parent
                &&& r.controller == controller
                &&& r.facing == facing
                &&& r.velocity == velocity
                &&& r.health == health
                &&& r.is_enemy == is_enemy
                &&& r.skills == skills
                &&& r.hitboxes@ == Seq::<Hitbox>::empty()
                &&& r.effect == effect
            }),
    {
        let id = self.next_id;
        let rec = EntityRec {
            id,
            parent,
            controller,
            facing,
            velocity,
            health,
            is_enemy,
            skills,
            hitboxes: Vec::new(),
            effect,
        };
        proof {
            if old(self).has_entity(id) {
                let i = choose|i: int|
                    0 <= i < old(self).entities@.len() && (#[trigger] old(self).entities@[i]).id == id;
                assert(rec_wf(old(self).entities@[i], old(self).next_id));
                assert(false);
            }
        }
        self.entities.push(rec);
        self.next_id = id + 1;
        proof {
            self.lemma_wf_after_spawn(*old(self), rec);
            assert(self.entities@.last() == rec);
        }
        id
    }

    /// Index of the entity with the given id, if it is alive.
    fn find_index(&self, id: u64) -> (r: Option<usize>)
        ensures
            match r {
                Some(i) => i < self.entities@.len() && self.entities@[i as int].id == id,
                None => !self.has_entity(id),
            },
    {
        let n = self.entities.len();
        let mut i: usize = 0;
        while i < n
            invariant
                n == self.entities@.len(),
                i <= n,
                forall|k: int| 0 <= k < i ==> (#[trigger] self.entities@[k]).id != id,
            decreases n - i,
        {
            if self.entities[i].id == id {
                return Some(i);
            }
            i += 1;
        }
        None
    }

    /// Queue a destruction request; it takes effect only at the tick
    /// boundary, never mid-iteration.
    pub fn queue_destroy(&mut self, id: u64)
        ensures
            final(self).entities@ == old(self).entities@,
            final(self).next_id == old(self).next_id,
            final(self).pending_destroy@ == old(self).pending_destroy@.push(id),
            forall|x: u64|
                #[trigger] final(self).pending_destroy@.contains(x) <==> (old(self).pending_destroy@.contains(x) || x == id),
    {
        self.pending_destroy.push(id);
        proof {
            let p0 = old(self).pending_destroy@;
            let p1 = self.pending_destroy@;
            assert(p1[p0.len() as int] == id);
            assert(p1.contains(id));
            assert forall|x: u64| #[trigger] p1.contains(x) implies (p0.contains(x) || x == id)
                by {
                let w = choose|w: int| 0 <= w < p1.len() && p1[w] == x;
                if w < p0.len() {
                    assert(p0[w] == x);
                }
            }
            assert forall|x: u64| #[trigger] p0.contains(x) implies p1.contains(x) by {
                let w = choose|w: int| 0 <= w < p0.len() && p0[w] == x;
                assert(p1[w] == x);
            }
        }
    }

    /// Replace the spell component of the entity at index `i`.
    fn set_effect(&mut self, i: usize, e: Effect)
        requires
            old(self).wf(),
            i < old(self).entities@.len(),
            effect_wf(e),
        ensures
            final(self).wf(),
            final(self).next_id == old(self).next_id,
            final(self).pending_destroy@ == old(self).pending_destroy@,
            final(self).entities@.len() == old(self).entities@.len(),
            forall|j: int|
                0 <= j < old(self).entities@.len() && j != i ==> final(self).entities@[j]
                    == old(self).entities@[j],
            ({
                let r0 = old(self).entities@[i as int];
                let r1 = final(self).entities@[i as int];
                &&& r1.id == r0.id
                &&& r1.parent == r0.parent
                &&& r1.controller == r0.controller
                &&& r1.facing == r0.facing
                &&& r1.velocity == r0.velocity
                &&& r1.health == r0.health
                &&& r1.is_enemy == r0.is_enemy
                &&& r1.skills == r0.skills
                &&& r1.hitboxes@ == r0.hitboxes@
                &&& r1.effect == Some(e)
            }),
    {
        let r = &mut self.entities[i];
        r.effect = Some(e);
        proof {
            assert forall|j: int| 0 <= j < self.entities@.len() implies rec_wf(
                #[trigger] self.entities@[j],
                self.next_id,
            ) by {
                assert(rec_wf(old(self).entities@[j], old(self).next_id));
            }
            self.lemma_wf_same_skeleton(*old(self));
        }
    }

    /// Attach a fresh sensor volume to the entity at index `i`.
    fn attach_hitbox(&mut self, i: usize, size: Vec2i, ttl_ms: Option<u32>) -> (hid: u64)
        requires
            old(self).wf(),
            old(self).can_alloc(1),
            i < old(self).entities@.len(),
        ensures
            final(self).wf(),
            hid == old(self).next_id,
            final(self).next_id == old(self).next_id + 1,
            final(self).pending_destroy@ == old(self).pending_destroy@,
            final(self).entities@.len() == old(self).entities@.len(),
            forall|j: int|
                0 <= j < old(self).entities@.len() && j != i ==> final(self).entities@[j]
                    == old(self).entities@[j],
            ({
                let r0 = old(self).entities@[i as int];
                let r1 = final(self).entities@[i as int];
                &&& r1.id == r0.id
                &&& r1.parent == r0.parent
                &&& r1.controller == r0.controller
                &&& r1.facing == r0.facing
                &&& r1.velocity == r0.velocity
                &&& r1.health == r0.health
                &&& r1.is_enemy == r0.is_enemy
                &&& r1.skills == r0.skills
                &&& r1.effect == r0.effect
                &&& r1.hitboxes@ == r0.hitboxes@.push(
                    Hitbox {
                        id: hid,
                        size,
                        ttl: match ttl_ms {
                            Some(d) => Some(OnceTimer { elapsed_ms: 0, duration_ms: d }),
                            None => None,
                        },
                    },
                )
            }),
    {
        let hid = self.next_id;
        let ttl = match ttl_ms {
            Some(d) => Some(OnceTimer::new(d)),
            None => None,
        };
        let h = Hitbox { id: hid, size, ttl };
        let r = &mut self.entities[i];
        r.hitboxes.push(h);
        self.next_id = hid + 1;
        proof {
            self.lemma_wf_after_attach(*old(self), i as int, h);
        }
        hid
    }

    /// Attaching one fresh hitbox — its id the old counter — to one
    /// record keeps the world well formed.
    proof fn lemma_wf_after_attach(self, prev: World, i: int, h: Hitbox)
        requires
            prev.wf(),
            0 <= i < prev.entities@.len(),
            self.entities@.len() == prev.entities@.len(),
            forall|j: int|
                0 <= j < prev.entities@.len() && j != i ==> self.entities@[j]
                    == prev.entities@[j],
            self.entities@[i].id == prev.entities@[i].id,
            self.entities@[i].parent == prev.entities@[i].parent,
            self.entities@[i].controller == prev.entities@[i].controller,
            self.entities@[i].facing == prev.entities@[i].facing,
            self.entities@[i].skills == prev.entities@[i].skills,
            self.entities@[i].effect == prev.entities@[i].effect,
            self.entities@[i].hitboxes@ == prev.entities@[i].hitboxes@.push(h),
            h.id == prev.next_id,
            h.wf(),
            self.next_id == prev.next_id + 1,
        ensures
            self.wf(),
    {
        let n = self.entities@.len() as int;
        assert forall|j: int| 0 <= j < n implies rec_wf(#[trigger] self.entities@[j], self.next_id)
            by {
            lemma_rec_wf_grow(prev.entities@[j], prev.next_id, self.next_id);
            if j == i {
                assert forall|k: int| 0 <= k < self.entities@[j].hitboxes@.len() implies ((
                #[trigger] self.entities@[j].hitboxes@[k]).wf() && self.entities@[j].hitboxes@[k].id
                    < self.next_id) by {
                    if k < prev.entities@[i].hitboxes@.len() {
                        assert(self.entities@[j].hitboxes@[k] == prev.entities@[i].hitboxes@[k]);
                        assert(rec_wf(prev.entities@[i], prev.next_id));
                    } else {
                        assert(self.entities@[j].hitboxes@[k] == h);
                    }
                }
            }
        }
        assert forall|a: int, b: int| 0 <= a < b < n implies (#[trigger] self.entities@[a]).id != (
        #[trigger] self.entities@[b]).id by {
            assert(prev.entities@[a].id != prev.entities@[b].id);
        }
        assert forall|a: int, b: int, hid: u64|
            0 <= a < n && 0 <= b < n && a != b implies !(#[trigger] owns(self.entities@[a], hid)
            && #[trigger] owns(self.entities@[b], hid)) by {
            if owns(self.entities@[a], hid) && owns(self.entities@[b], hid) {
                self.lemma_owns_back(prev, i, h, a, hid);
                self.lemma_owns_back(prev, i, h, b, hid);
                if hid == h.id {
                    if a != i {
                        lemma_owned_bound(prev.entities@[a], prev.next_id, hid);
                    }
                    if b != i {
                        lemma_owned_bound(prev.entities@[b], prev.next_id, hid);
                    }
                } else {
                    assert(!(owns(prev.entities@[a], hid) && owns(prev.entities@[b], hid)));
                }
            }
        }
        assert forall|a: int, b: int| 0 <= a < n && 0 <= b < n implies !(#[trigger] owns(
            self.entities@[b],
            (#[trigger] self.entities@[a]).id,
        )) by {
            if owns(self.entities@[b], self.entities@[a].id) {
                self.lemma_owns_back(prev, i, h, b, self.entities@[a].id);
                if self.entities@[a].id == h.id {
                    assert(rec_wf(prev.entities@[a], prev.next_id));
                } else {
                    assert(!owns(prev.entities@[b], prev.entities@[a].id));
                }
            }
        }
    }

    /// Ownership after a single-record hitbox push comes from the old
    /// record or is the fresh hitbox itself.
    proof fn lemma_owns_back(self, prev: World, i: int, h: Hitbox, a: int, hid: u64)
        requires
            0 <= i < prev.entities@.len(),
            self.entities@.len() == prev.entities@.len(),
            forall|j: int|
                0 <= j < prev.entities@.len() && j != i ==> self.entities@[j]
                    == prev.entities@[j],
            self.entities@[i].hitboxes@ == prev.entities@[i].hitboxes@.push(h),
            0 <= a < self.entities@.len(),
            owns(self.entities@[a], hid),
        ensures
            owns(prev.entities@[a], hid) || (a == i && hid == h.id),
    {
        let k = choose|k: int|
            0 <= k < self.entities@[a].hitboxes@.len() && (
            #[trigger] self.entities@[a].hitboxes@[k]).id == hid;
        if a == i {
            if k < prev.entities@[i].hitboxes@.len() {
                assert(prev.entities@[a].hitboxes@[k].id == hid);
            }
        } else {
            assert(prev.entities@[a].hitboxes@[k].id == hid);
        }
    }

    /// Create a sensor volume as a child of the effect entity named in the
    /// request; a request naming an entity that no longer exists is not
    /// actionable and changes nothing.
    pub fn spawn_hitbox(&mut self, info: HitboxInfo) -> (r: Option<u64>)
        requires
            old(self).wf(),
            old(self).can_alloc(1),
        ensures
            final(self).wf(),
            final(self).pending_destroy@ == old(self).pending_destroy@,
            match r {
                None => !old(self).has_entity(info.parent) && *final(self) == *old(self),
                Some(hid) => {
                    &&& hid == old(self).next_id
                    &&& final(self).next_id == old(self).next_id + 1
                    &&& final(self).entities@.len() == old(self).entities@.len()
                    &&& exists|i: int|
                        {
                            &&& 0 <= i < old(self).entities@.len()
                            &&& (#[trigger] old(self).entities@[i]).id == info.parent
                            &&& final(self).entities@[i].hitboxes@
                                == old(self).entities@[i].hitboxes@.push(
                                Hitbox {
                                    id: hid,
                                    size: info.size,
                                    ttl: match info.ttl_ms {
                                        Some(d) => Some(
                                            OnceTimer { elapsed_ms: 0, duration_ms: d },
                                        ),
                                        None => None,
                                    },
                                },
                            )
                            &&& final(self).entities@[i].id == info.parent
                            &&& (forall|j: int|
                                0 <= j < old(self).entities@.len() && j != i
                                    ==> final(self).entities@[j] == old(self).entities@[j])
                        }
                },
            },
    {
        match self.find_index(info.parent) {
            None => None,
            Some(i) => {
                let hid = self.attach_hitbox(i, info.size, info.ttl_ms);
                Some(hid)
            },
        }
    }

    /// Drive every movement controller for one tick: recompute each
    /// entity's velocity from its intent with eased acceleration, and let
    /// the facing follow the movement direction while moving.
    pub fn controll_entities(&mut self, dt_ms: u32)
        requires
            old(self).wf(),
        ensures
            final(self).wf(),
            moved_frame(*old(self), *final(self), dt_ms as int),
    {
        let n = self.entities.len();
        let mut i: usize = 0;
        while i < n
            invariant
                old(self).wf(),
                n == old(self).entities@.len(),
                n == self.entities@.len(),
                i <= n,
                self.next_id == old(self).next_id,
                self.pending_destroy@ == old(self).pending_destroy@,
                forall|j: int|
                    0 <= j < i ==> self.entities@[j] == rec_moved(
                        old(self).entities@[j],
                        dt_ms as int,
                    ),
                forall|j: int| i <= j < n ==> self.entities@[j] == old(self).entities@[j],
            decreases n - i,
        {
            proof {
                assert(rec_wf(old(self).entities@[i as int], old(self).next_id));
            }
            let r = &mut self.entities[i];
            let copt = r.controller;
            match copt {
                None => {},
                Some(mut c) => {
                    let v = c.tick(dt_ms);
                    r.controller = Some(c);
                    r.velocity = v;
                    match &mut r.facing {
                        Some(f) => {
                            c.update_facing(f);
                        },
                        None => {},
                    }
                },
            }
            i += 1;
        }
        proof {
            assert forall|j: int| 0 <= j < self.entities@.len() implies rec_wf(
                #[trigger] self.entities@[j],
                self.next_id,
            ) by {
                assert(rec_wf(old(self).entities@[j], old(self).next_id));
            }
            self.lemma_wf_same_skeleton(*old(self));
        }
    }

    /// Advance every skill tree's reload timers by one tick.
    pub fn tick_skill_timers(&mut self, dt_ms: u32)
        requires
            old(self).wf(),
        ensures
            final(self).wf(),
            skills_frame(*old(self), *final(self), dt_ms as int),
    {
        let n = self.entities.len();
        let mut i: usize = 0;
        while i < n
            invariant
                old(self).wf(),
                n == old(self).entities@.len(),
                n == self.entities@.len(),
                i <= n,
                self.next_id == old(self).next_id,
                self.pending_destroy@ == old(self).pending_destroy@,
                forall|j: int|
                    #![trigger self.entities@[j]]
                    0 <= j < i ==> ({
                        let r0 = old(self).entities@[j];
                        let r1 = self.entities@[j];
                        &&& r1.id == r0.id
                        &&& r1.parent == r0.parent
                        &&& r1.controller == r0.controller
                        &&& r1.facing == r0.facing
                        &&& r1.velocity == r0.velocity
                        &&& r1.health == r0.health
                        &&& r1.is_enemy == r0.is_enemy
                        &&& r1.hitboxes@ == r0.hitboxes@
                        &&& r1.effect == r0.effect
                        &&& (match (r0.skills, r1.skills) {
                            (None, None) => true,
                            (Some(t0), Some(t1)) => t1@.len() == t0@.len() && (forall|k: int|
                                0 <= k < t0@.len() ==> t1@[k] == skill_ticked(
                                    t0@[k],
                                    dt_ms as int,
                                )),
                            _ => false,
                        })
                    }),
                forall|j: int| i <= j < n ==> self.entities@[j] == old(self).entities@[j],
            decreases n - i,
        {
            proof {
                assert(rec_wf(old(self).entities@[i as int], old(self).next_id));
            }
            let r = &mut self.entities[i];
            match &mut r.skills {
                None => {},
                Some(t) => {
                    t.tick(dt_ms);
                },
            }
            i += 1;
        }
        proof {
            assert forall|j: int| 0 <= j < self.entities@.len() implies rec_wf(
                #[trigger] self.entities@[j],
                self.next_id,
            ) by {
                assert(rec_wf(old(self).entities@[j], old(self).next_id));
            }
            self.lemma_wf_same_skeleton(*old(self));
        }
    }

    /// Per-tick hitbox upkeep: advance every time-to-live and queue every
    /// expired hitbox for destruction at the tick boundary.
    #[verifier::rlimit(60)]
    pub fn update_hitboxes(&mut self, dt_ms: u32)
        requires
            old(self).wf(),
        ensures
            final(self).wf(),
            hitboxes_frame(*old(self), *final(self), dt_ms as int),
    {
        let n = self.entities.len();
        let mut i: usize = 0;
        while i < n
            invariant
                old(self).wf(),
                n == old(self).entities@.len(),
                n == self.entities@.len(),
                i <= n,
                self.next_id == old(self).next_id,
                forall|j: int|
                    #![trigger self.entities@[j]]
                    0 <= j < i ==> ({
                        let r0 = old(self).entities@[j];
                        let r1 = self.entities@[j];
                        &&& r1.id == r0.id
                        &&& r1.parent == r0.parent
                        &&& r1.controller == r0.controller
                        &&& r1.facing == r0.facing
                        &&& r1.velocity == r0.velocity
                        &&& r1.health == r0.health
                        &&& r1.is_enemy == r0.is_enemy
                        &&& r1.skills == r0.skills
                        &&& r1.effect == r0.effect
                        &&& r1.hitboxes@.len() == r0.hitboxes@.len()
                        &&& (forall|k: int|
                            0 <= k < r0.hitboxes@.len() ==> r1.hitboxes@[k] == hitbox_ticked(
                                r0.hitboxes@[k],
                                dt_ms as int,
                            ))
                    }),
                forall|j: int| i <= j < n ==> self.entities@[j] == old(self).entities@[j],
                old(self).pending_destroy@.is_prefix_of(self.pending_destroy@),
                forall|id: u64|
                    self.pending_destroy@.contains(id) <==> (old(self).pending_destroy@.contains(id) || exists|j: int|
                        0 <= j < i && owns_expiring(
                            #[trigger] old(self).entities@[j],
                            id,
                            dt_ms as int,
                        )),
            decreases n - i,
        {
            proof {
                assert(rec_wf(old(self).entities@[i as int], old(self).next_id));
            }
            let m = self.entities[i].hitboxes.len();
            let mut k: usize = 0;
            while k < m
                invariant
                    old(self).wf(),
                    n == old(self).entities@.len(),
                    n == self.entities@.len(),
                    i < n,
                    m == self.entities@[i as int].hitboxes@.len(),
                    k <= m,
                    self.next_id == old(self).next_id,
                    forall|j: int|
                        #![trigger self.entities@[j]]
                        0 <= j < i ==> ({
                            let r0 = old(self).entities@[j];
                            let r1 = self.entities@[j];
                            &&& r1.id == r0.id
                            &&& r1.parent == r0.parent
                            &&& r1.controller == r0.controller
                            &&& r1.facing == r0.facing
                            &&& r1.velocity == r0.velocity
                            &&& r1.health == r0.health
                            &&& r1.is_enemy == r0.is_enemy
                            &&& r1.skills == r0.skills
                            &&& r1.effect == r0.effect
                            &&& r1.hitboxes@.len() == r0.hitboxes@.len()
                            &&& (forall|kk: int|
                                0 <= kk < r0.hitboxes@.len() ==> r1.hitboxes@[kk]
                                    == hitbox_ticked(r0.hitboxes@[kk], dt_ms as int))
                        }),
                    forall|j: int| i < j < n ==> self.entities@[j] == old(self).entities@[j],
                    ({
                        let r0 = old(self).entities@[i as int];
                        let r1 = self.entities@[i as int];
                        &&& r1.id == r0.id
                        &&& r1.parent == r0.parent
                        &&& r1.controller == r0.controller
                        &&& r1.facing == r0.facing
                        &&& r1.velocity == r0.velocity
                        &&& r1.health == r0.health
                        &&& r1.is_enemy == r0.is_enemy
                        &&& r1.skills == r0.skills
                        &&& r1.effect == r0.effect
                        &&& r1.hitboxes@.len() == r0.hitboxes@.len()
                        &&& (forall|kk: int|
                            0 <= kk < k ==> r1.hitboxes@[kk] == hitbox_ticked(
                                r0.hitboxes@[kk],
                                dt_ms as int,
                            ))
                        &&& (forall|kk: int|
                            k <= kk < m ==> r1.hitboxes@[kk] == r0.hitboxes@[kk])
                    }),
                    old(self).pending_destroy@.is_prefix_of(self.pending_destroy@),
                    forall|id: u64|
                        #[trigger] self.pending_destroy@.contains(id) ==> (old(self).pending_destroy@.contains(id) || (exists|j: int|
                            0 <= j < i && owns_expiring(
                                #[trigger] old(self).entities@[j],
                                id,
                                dt_ms as int,
                            )) || (exists|kk: int|
                            0 <= kk < k && (#[trigger] old(self).entities@[i as int].hitboxes@[kk]).id == id && hitbox_expires(
                                old(self).entities@[i as int].hitboxes@[kk],
                                dt_ms as int,
                            ))),
                    forall|id: u64|
                        #[trigger] old(self).pending_destroy@.contains(id)
                            ==> self.pending_destroy@.contains(id),
                    forall|j: int, id: u64|
                        0 <= j < i && #[trigger] owns_expiring(
                            old(self).entities@[j],
                            id,
                            dt_ms as int,
                        ) ==> self.pending_destroy@.contains(id),
                    forall|kk: int|
                        0 <= kk < k && hitbox_expires(
                            #[trigger] old(self).entities@[i as int].hitboxes@[kk],
                            dt_ms as int,
                        ) ==> self.pending_destroy@.contains(
                            old(self).entities@[i as int].hitboxes@[kk].id,
                        ),
                decreases m - k,
            {
                proof {
                    assert(rec_wf(old(self).entities@[i as int], old(self).next_id));
                    assert(old(self).entities@[i as int].hitboxes@[k as int].wf());
                }
                let hb0 = self.entities[i].hitboxes[k];
                let mut hb = hb0;
                let expired = hb.tick(dt_ms);
                let r = &mut self.entities[i];
                r.hitboxes.set(k, hb);
                proof {
                    assert(hb0 == old(self).entities@[i as int].hitboxes@[k as int]);
                    assert(expired == hitbox_expires(
                        old(self).entities@[i as int].hitboxes@[k as int],
                        dt_ms as int,
                    ));
                }
                if expired {
                    let hid = hb0.id;
                    let ghost p0 = self.pending_destroy@;
                    self.pending_destroy.push(hid);
                    proof {
                        let m = old(self).pending_destroy@.len() as int;
                        assert(hb0 == old(self).entities@[i as int].hitboxes@[k as int]);
                        assert(hitbox_expires(hb0, dt_ms as int));
                        assert(self.pending_destroy@[p0.len() as int] == hid);
                        assert(self.pending_destroy@.contains(hid));
                        assert forall|id: u64| #[trigger] self.pending_destroy@.contains(id)
                            implies (p0.contains(id) || id == hid) by {
                            let w = choose|w: int|
                                0 <= w < self.pending_destroy@.len()
                                    && self.pending_destroy@[w] == id;
                            if w < p0.len() {
                                assert(p0[w] == id);
                            }
                        }
                        assert forall|id: u64| #[trigger] p0.contains(id)
                            implies self.pending_destroy@.contains(id) by {
                            let w = choose|w: int| 0 <= w < p0.len() && p0[w] == id;
                            assert(self.pending_destroy@[w] == id);
                        }
                        assert(old(self).pending_destroy@.is_prefix_of(
                            self.pending_destroy@,
                        )) by {
                            assert(self.pending_destroy@.subrange(0, m)
                                =~= p0.subrange(0, m));
                        }
                    }
                }
                k += 1;
            }
            i += 1;
        }
        proof {
            assert forall|j: int| 0 <= j < self.entities@.len() implies rec_wf(
                #[trigger] self.entities@[j],
                self.next_id,
            ) by {
                assert(rec_wf(old(self).entities@[j], old(self).next_id));
                let r0 = old(self).entities@[j];
                let r1 = self.entities@[j];
                assert forall|kk: int| 0 <= kk < r1.hitboxes@.len() implies ((
                #[trigger] r1.hitboxes@[kk]).wf() && r1.hitboxes@[kk].id < self.next_id) by {
                    assert(r0.hitboxes@[kk].wf() && r0.hitboxes@[kk].id < self.next_id);
                    assert(r1.hitboxes@[kk] == hitbox_ticked(r0.hitboxes@[kk], dt_ms as int));
                }
            }
            assert forall|j: int| 0 <= j < self.entities@.len() implies ((
            #[trigger] self.entities@[j]).id == old(self).entities@[j].id
                && self.entities@[j].hitboxes@.len() == old(self).entities@[j].hitboxes@.len())
                by {}
            self.lemma_wf_after_hitbox_tick(*old(self), dt_ms as int);
        }
    }

    /// Drive every spell state machine for one tick, in entity order: step
    /// the effect components, re-fire beam hitboxes, fire session pellets
    /// and shed fireball shards as fresh independent entities, and queue
    /// the destruction of every effect that reached its terminal
    /// condition.  Spawned projectiles are appended after the existing
    /// entities and are not themselves stepped until the next tick.
    pub fn update_effects(&mut self, dt_ms: u32)
        requires
            old(self).wf(),
            old(self).can_alloc(2 * old(self).entities@.len() as int),
        ensures
            final(self).wf(),
            effects_frame(*old(self), *final(self), dt_ms as int),
    {
        let n = self.entities.len();
        let mut i: usize = 0;
        while i < n
            invariant
                old(self).wf(),
                old(self).can_alloc(2 * n as int),
                n == old(self).entities@.len(),
                i <= n,
                self.wf(),
                n <= self.entities@.len(),
                self.entities@.len() == n + spawn_count(
                    old(self).entities@.take(i as int),
                    dt_ms as int,
                ),
                old(self).next_id <= self.next_id,
                self.next_id <= old(self).next_id + 2 * i,
                forall|j: int|
                    0 <= j < i ==> #[trigger] stepped_shape(
                        old(self).entities@[j],
                        self.entities@[j],
                        old(self).next_id,
                        dt_ms as int,
                    ),
                forall|j: int| i <= j < n ==> self.entities@[j] == old(self).entities@[j],
                forall|j: int|
                    #![trigger self.entities@[j]]
                    n <= j < self.entities@.len() ==> (spawned_ok(
                        *old(self),
                        self.entities@[j],
                        dt_ms as int,
                    ) && self.entities@[j].id >= old(self).next_id),
                old(self).pending_destroy@.is_prefix_of(self.pending_destroy@),
                forall|id: u64|
                    #[trigger] self.pending_destroy@.contains(id) ==> (old(self).pending_destroy@.contains(id) || (exists|j: int|
                        0 <= j < i && (#[trigger] old(self).entities@[j]).id == id
                            && rec_effect_despawns(old(self).entities@[j], dt_ms as int))),
                forall|id: u64|
                    #[trigger] old(self).pending_destroy@.contains(id)
                        ==> self.pending_destroy@.contains(id),
                forall|j: int|
                    0 <= j < i && rec_effect_despawns(
                        #[trigger] old(self).entities@[j],
                        dt_ms as int,
                    ) ==> self.pending_destroy@.contains(old(self).entities@[j].id),
            decreases n - i,
        {
            proof {
                assert(rec_wf(old(self).entities@[i as int], old(self).next_id));
            }
            let ghost p_before = self.pending_destroy@;
            let eid = self.entities[i].id;
            let eff_opt = self.entities[i].effect;
            match eff_opt {
                None => {},
                Some(Effect::Swing(a0)) => {
                    if a0.frame < crate::spell::basic_attack::ATTACK_FRAMES {
                        let mut a = a0;
                        let despawn = a.tick(dt_ms);
                        self.set_effect(i, Effect::Swing(a));
                        if despawn {
                            self.queue_destroy(eid);
                            proof {
                                lemma_prefix_push(old(self).pending_destroy@, p_before, eid);
                            }
                        }
                    }
                },
                Some(Effect::BeamEffect(b0)) => {
                    let mut b = b0;
                    let out = b.tick(dt_ms);
                    self.set_effect(i, Effect::BeamEffect(b));
                    if out.spawn_hitbox {
                        self.attach_hitbox(
                            i,
                            crate::spell::beam::beam_hitbox_size(),
                            Some(crate::spell::beam::BEAM_HITBOX_MS),
                        );
                        proof {
                            assert(self.entities@[i as int].hitboxes@.subrange(
                                0,
                                old(self).entities@[i as int].hitboxes@.len() as int,
                            ) =~= old(self).entities@[i as int].hitboxes@);
                        }
                    }
                    if out.despawn {
                        self.queue_destroy(eid);
                        proof {
                            lemma_prefix_push(old(self).pending_destroy@, p_before, eid);
                        }
                    }
                },
                Some(Effect::BulletSession(s0)) => {
                    let mut s = s0;
                    let out = s.tick(dt_ms);
                    self.set_effect(i, Effect::BulletSession(s));
                    match out.fire {
                        Some(d) => {
                            let v = d.times(crate::spell::bullets::BULLET_SPEED);
                            let at = self.entities.len();
                            self.spawn_entity(
                                None,
                                None,
                                None,
                                None,
                                false,
                                None,
                                Some(Effect::Pellet(crate::spell::bullets::Bullet::new())),
                                v,
                            );
                            self.attach_hitbox(at, Vec2i { x: 16000, y: 8000 }, None);
                            proof {
                                assert(pellet_spawned_ok(
                                    *old(self),
                                    self.entities@[at as int],
                                    dt_ms as int,
                                )) by {
                                    assert((#[trigger] old(self).entities@[i as int]).effect
                                        == Some(Effect::BulletSession(s0)));
                                    assert(session_fires(s0, dt_ms as int));
                                }
                            }
                        },
                        None => {},
                    }
                    if out.session_done {
                        let ghost p_now = self.pending_destroy@;
                        self.queue_destroy(eid);
                        proof {
                            lemma_prefix_push(old(self).pending_destroy@, p_now, eid);
                        }
                    }
                },
                Some(Effect::Pellet(b0)) => {
                    let mut b = b0;
                    let despawn = b.tick(dt_ms);
                    self.set_effect(i, Effect::Pellet(b));
                    if despawn {
                        self.queue_destroy(eid);
                        proof {
                            lemma_prefix_push(old(self).pending_destroy@, p_before, eid);
                        }
                    }
                },
                Some(Effect::FireBallEffect(f0)) => {
                    let mut f = f0;
                    let out = f.tick(dt_ms);
                    self.set_effect(i, Effect::FireBallEffect(f));
                    if out.spawn_shard {
                        let sp = crate::spell::fire_ball::spawn_small_fire_ball();
                        let at = self.entities.len();
                        self.spawn_entity(
                            None,
                            None,
                            None,
                            None,
                            false,
                            None,
                            Some(Effect::Shard(sp.shard)),
                            sp.velocity,
                        );
                        self.attach_hitbox(at, Vec2i { x: 8000, y: 8000 }, None);
                        proof {
                            assert(shard_spawned_ok(
                                *old(self),
                                self.entities@[at as int],
                                dt_ms as int,
                            )) by {
                                assert((#[trigger] old(self).entities@[i as int]).effect == Some(
                                    Effect::FireBallEffect(f0),
                                ));
                                assert(fireball_sheds(f0, dt_ms as int));
                            }
                        }
                    }
                    if out.despawn {
                        let ghost p_now = self.pending_destroy@;
                        self.queue_destroy(eid);
                        proof {
                            lemma_prefix_push(old(self).pending_destroy@, p_now, eid);
                        }
                    }
                },
                Some(Effect::Shard(sh0)) => {
                    let mut sh = sh0;
                    let despawn = sh.tick(dt_ms);
                    self.set_effect(i, Effect::Shard(sh));
                    if despawn {
                        self.queue_destroy(eid);
                        proof {
                            lemma_prefix_push(old(self).pending_destroy@, p_before, eid);
                        }
                    }
                },
            }
            proof {
                assert(stepped_shape(
                    old(self).entities@[i as int],
                    self.entities@[i as int],
                    old(self).next_id,
                    dt_ms as int,
                ));
                assert(old(self).entities@.take(i + 1).drop_last() =~= old(
                    self,
                ).entities@.take(i as int));
                assert(old(self).entities@.take(i + 1).last() == old(
                    self,
                ).entities@[i as int]);
            }
            i += 1;
        }
        proof {
            assert(old(self).entities@.take(n as int) =~= old(self).entities@);
        }
    }

    /// Aging hitboxes in place — ids untouched — keeps the world well
    /// formed.
    proof fn lemma_wf_after_hitbox_tick(self, prev: World, dt: int)
        requires
            prev.wf(),
            self.entities@.len() == prev.entities@.len(),
            prev.next_id <= self.next_id,
            forall|j: int|
                0 <= j < prev.entities@.len() ==> ((#[trigger] self.entities@[j]).id
                    == prev.entities@[j].id && self.entities@[j].hitboxes@.len()
                    == prev.entities@[j].hitboxes@.len() && (forall|k: int|
                    0 <= k < prev.entities@[j].hitboxes@.len()
                        ==> (#[trigger] self.entities@[j].hitboxes@[k]).id
                        == prev.entities@[j].hitboxes@[k].id)),
            forall|j: int|
                0 <= j < self.entities@.len() ==> rec_wf(
                    #[trigger] self.entities@[j],
                    self.next_id,
                ),
        ensures
            self.wf(),
    {
        let n = self.entities@.len() as int;
        assert forall|a: int, b: int| 0 <= a < b < n implies (#[trigger] self.entities@[a]).id != (
        #[trigger] self.entities@[b]).id by {
            assert(prev.entities@[a].id != prev.entities@[b].id);
        }
        assert forall|a: int, hid: u64|
            0 <= a < n && #[trigger] owns(self.entities@[a], hid) implies owns(
            prev.entities@[a],
            hid,
        ) by {
            let k = choose|k: int|
                0 <= k < self.entities@[a].hitboxes@.len() && (
                #[trigger] self.entities@[a].hitboxes@[k]).id == hid;
            assert(prev.entities@[a].hitboxes@[k].id == hid);
        }
        assert forall|a: int, b: int, hid: u64|
            0 <= a < n && 0 <= b < n && a != b implies !(#[trigger] owns(self.entities@[a], hid)
            && #[trigger] owns(self.entities@[b], hid)) by {
            if owns(self.entities@[a], hid) && owns(self.entities@[b], hid) {
                assert(!(owns(prev.entities@[a], hid) && owns(prev.entities@[b], hid)));
            }
        }
        assert forall|a: int, b: int| 0 <= a < n && 0 <= b < n implies !(#[trigger] owns(
            self.entities@[b],
            (#[trigger] self.entities@[a]).id,
        )) by {
            if owns(self.entities@[b], self.entities@[a].id) {
                assert(!owns(prev.entities@[b], prev.entities@[a].id));
            }
        }
    }

    /// The cast gate on a caster's own skill tree (skill gating): the
    /// named skill fires only if the caster exists, carries a skill tree,
    /// and the skill is unlocked with its reload finished — firing
    /// restarts that reload.  In every other case the whole world,
    /// reload timers included, is left untouched, and no spell is cast.
    pub fn try_cast_skill(&mut self, caster: u64, skill_name: String) -> (fired: bool)
        requires
            old(self).wf(),
        ensures
            final(self).wf(),
            final(self).next_id == old(self).next_id,
            final(self).pending_destroy@ == old(self).pending_destroy@,
            final(self).entities@.len() == old(self).entities@.len(),
            fired == (old(self).has_entity(caster) && (match old(self).rec_of(caster).skills {
                Some(t) => exists|k: int|
                    0 <= k < t@.len() && (#[trigger] t@[k]).name@ == skill_name@
                        && t@[k].castable(),
                None => false,
            })),
            !fired ==> (forall|j: int|
                #![trigger final(self).entities@[j]]
                0 <= j < old(self).entities@.len() ==> ({
                    let r0 = old(self).entities@[j];
                    let r1 = final(self).entities@[j];
                    &&& r1.id == r0.id
                    &&& r1.parent == r0.parent
                    &&& r1.controller == r0.controller
                    &&& r1.facing == r0.facing
                    &&& r1.velocity == r0.velocity
                    &&& r1.health == r0.health
                    &&& r1.is_enemy == r0.is_enemy
                    &&& r1.hitboxes@ == r0.hitboxes@
                    &&& r1.effect == r0.effect
                    &&& (match (r0.skills, r1.skills) {
                        (None, None) => true,
                        (Some(t0), Some(t1)) => t1@ == t0@,
                        _ => false,
                    })
                })),
            fired ==> ({
                let i = old(self).index_of(caster);
                &&& (forall|j: int|
                    0 <= j < old(self).entities@.len() && j != i ==> final(self).entities@[j]
                        == old(self).entities@[j])
                &&& ({
                    let r0 = old(self).entities@[i];
                    let r1 = final(self).entities@[i];
                    &&& r1.id == r0.id
                    &&& r1.parent == r0.parent
                    &&& r1.controller == r0.controller
                    &&& r1.facing == r0.facing
                    &&& r1.velocity == r0.velocity
                    &&& r1.health == r0.health
                    &&& r1.is_enemy == r0.is_enemy
                    &&& r1.hitboxes@ == r0.hitboxes@
                    &&& r1.effect == r0.effect
                    &&& (match (r0.skills, r1.skills) {
                        (Some(t0), Some(t1)) => exists|k: int|
                            {
                                &&& 0 <= k < t0@.len()
                                &&& (#[trigger] t0@[k]).name@ == skill_name@
                                &&& t0@[k].castable()
                                &&& t1@ == t0@.update(k, skill_reloading(t0@[k]))
                            },
                        _ => false,
                    })
                })
            }),
    {
        let ci = match self.find_index(caster) {
            None => {
                return false;
            },
            Some(i) => i,
        };
        proof {
            self.lemma_index_unique(caster, ci as int);
            assert(rec_wf(self.entities@[ci as int], self.next_id));
        }
        let r = &mut self.entities[ci];
        let fired = match &mut r.skills {
            None => false,
            Some(t) => t.try_cast(skill_name),
        };
        proof {
            assert forall|j: int| 0 <= j < self.entities@.len() implies rec_wf(
                #[trigger] self.entities@[j],
                self.next_id,
            ) by {
                assert(rec_wf(old(self).entities@[j], old(self).next_id));
            }
            self.lemma_wf_same_skeleton(*old(self));
        }
        fired
    }

    /// Cast a melee swing: spawn the effect entity as a child of the
    /// caster, one swing-length ahead along the caster's facing, with a
    /// single untimed hitbox for the whole swing.  A cast naming a caster
    /// that no longer exists is skipped.  Returns the effect entity and
    /// its offset from the caster.
    pub fn spawn_basic_attack(&mut self, caster: u64) -> (r: Option<(u64, Vec2i)>)
        requires
            old(self).wf(),
            old(self).can_alloc(2),
        ensures
            final(self).wf(),
            final(self).pending_destroy@ == old(self).pending_destroy@,
            match r {
                None => !old(self).has_entity(caster) && *final(self) == *old(self),
                Some((aid, offset)) => ({
                    let w0 = *old(self);
                    let f = w0.rec_of(caster).facing;
                    &&& w0.has_entity(caster)
                    &&& aid == w0.next_id
                    &&& final(self).next_id == w0.next_id + 2
                    &&& final(self).entities@.len() == w0.entities@.len() + 1
                    &&& (forall|j: int|
                        0 <= j < w0.entities@.len() ==> final(self).entities@[j]
                            == w0.entities@[j])
                    &&& ({
                        let nr = final(self).entities@.last();
                        &&& nr.id == aid
                        &&& nr.parent == Some(caster)
                        &&& nr.health is None
                        &&& !nr.is_enemy
                        &&& nr.effect == Some(
                            Effect::Swing(
                                BasicAttack {
                                    frame_timer: crate::timer::RepeatTimer {
                                        elapsed_ms: 0,
                                        period_ms: crate::spell::basic_attack::ATTACK_FRAME_MS,
                                    },
                                    frame: 0,
                                    push_direction: match f {
                                        Some(ff) => ff.0,
                                        None => Vec2i { x: 0, y: 0 },
                                    },
                                },
                            ),
                        )
                        &&& nr.hitboxes@.len() == 1
                        &&& nr.hitboxes@[0].size == (Vec2i { x: 32000, y: 32000 })
                        &&& nr.hitboxes@[0].ttl is None
                    })
                    &&& (match f {
                        Some(ff) => offset.x == crate::spell::basic_attack::ATTACK_OFFSET * ff.0.x
                            && offset.y == crate::spell::basic_attack::ATTACK_OFFSET * ff.0.y,
                        None => offset == (Vec2i { x: 0, y: 0 }),
                    })
                }),
            },
    {
        let ci = match self.find_index(caster) {
            None => {
                return None;
            },
            Some(i) => i,
        };
        proof {
            self.lemma_index_unique(caster, ci as int);
            assert(rec_wf(self.entities@[ci as int], self.next_id));
        }
        let facing = self.entities[ci].facing;
        let spawn = crate::spell::basic_attack::cast_basic_attack(facing);
        let at = self.entities.len();
        let aid = self.spawn_entity(
            Some(caster),
            None,
            None,
            None,
            false,
            None,
            Some(Effect::Swing(spawn.attack)),
            Vec2i::zero(),
        );
        self.attach_hitbox(at, crate::spell::basic_attack::attack_hitbox_size(), None);
        Some((aid, spawn.offset))
    }

    /// Cast a beam: the effect entity is a child of the caster with its
    /// length and orientation fixed at cast time from the caster's facing
    /// (defaulting to +X); its hitboxes are re-fired by its own ticking,
    /// none at cast.  Returns the effect entity, its direction and its
    /// offset from the caster.
    pub fn cast_beam(&mut self, caster: u64) -> (r: Option<(u64, Vec2i, Vec2i)>)
        requires
            old(self).wf(),
            old(self).can_alloc(1),
        ensures
            final(self).wf(),
            final(self).pending_destroy@ == old(self).pending_destroy@,
            match r {
                None => !old(self).has_entity(caster) && *final(self) == *old(self),
                Some((bid, direction, offset)) => ({
                    let w0 = *old(self);
                    let f = w0.rec_of(caster).facing;
                    &&& w0.has_entity(caster)
                    &&& bid == w0.next_id
                    &&& final(self).next_id == w0.next_id + 1
                    &&& final(self).entities@.len() == w0.entities@.len() + 1
                    &&& (forall|j: int|
                        0 <= j < w0.entities@.len() ==> final(self).entities@[j]
                            == w0.entities@[j])
                    &&& direction == (match f {
                        Some(ff) => ff.0,
                        None => Vec2i { x: 1000, y: 0 },
                    })
                    &&& offset.x == crate::spell::beam::BEAM_OFFSET * direction.x
                    &&& offset.y == crate::spell::beam::BEAM_OFFSET * direction.y
                    &&& ({
                        let nr = final(self).entities@.last();
                        &&& nr.id == bid
                        &&& nr.parent == Some(caster)
                        &&& nr.health is None
                        &&& !nr.is_enemy
                        &&& nr.hitboxes@ == Seq::<Hitbox>::empty()
                        &&& nr.effect == Some(
                            Effect::BeamEffect(
                                Beam {
                                    live_timer: OnceTimer {
                                        elapsed_ms: 0,
                                        duration_ms: crate::spell::beam::BEAM_LIVE_MS,
                                    },
                                    hitbox_timer: crate::timer::RepeatTimer {
                                        elapsed_ms: 0,
                                        period_ms: crate::spell::beam::BEAM_HITBOX_MS,
                                    },
                                    frame_timer: crate::timer::RepeatTimer {
                                        elapsed_ms: 0,
                                        period_ms: crate::spell::beam::BEAM_FRAME_MS,
                                    },
                                    frame: 0,
                                },
                            ),
                        )
                    })
                }),
            },
    {
        let ci = match self.find_index(caster) {
            None => {
                return None;
            },
            Some(i) => i,
        };
        proof {
            self.lemma_index_unique(caster, ci as int);
            assert(rec_wf(self.entities@[ci as int], self.next_id));
        }
        let facing = self.entities[ci].facing;
        let spawn = crate::spell::beam::cast_beam(facing);
        let bid = self.spawn_entity(
            Some(caster),
            None,
            None,
            None,
            false,
            None,
            Some(Effect::BeamEffect(spawn.beam)),
            Vec2i::zero(),
        );
        Some((bid, spawn.direction, spawn.offset))
    }

    /// Cast a bullet spray: attach a firing session to the caster, aimed
    /// along its facing or unaimed without one.  The pellets themselves
    /// are fired by the session's ticking.
    pub fn cast_bullets_observer(&mut self, caster: u64) -> (r: Option<u64>)
        requires
            old(self).wf(),
            old(self).can_alloc(1),
        ensures
            final(self).wf(),
            final(self).pending_destroy@ == old(self).pending_destroy@,
            match r {
                None => !old(self).has_entity(caster) && *final(self) == *old(self),
                Some(sid) => ({
                    let w0 = *old(self);
                    let f = w0.rec_of(caster).facing;
                    &&& w0.has_entity(caster)
                    &&& sid == w0.next_id
                    &&& final(self).next_id == w0.next_id + 1
                    &&& final(self).entities@.len() == w0.entities@.len() + 1
                    &&& (forall|j: int|
                        0 <= j < w0.entities@.len() ==> final(self).entities@[j]
                            == w0.entities@[j])
                    &&& ({
                        let nr = final(self).entities@.last();
                        &&& nr.id == sid
                        &&& nr.parent == Some(caster)
                        &&& nr.health is None
                        &&& nr.hitboxes@ == Seq::<Hitbox>::empty()
                        &&& nr.effect == Some(
                            Effect::BulletSession(
                                CastingBullets {
                                    bullets_left: crate::spell::bullets::NB_BULLETS,
                                    bullet_timer: crate::timer::RepeatTimer {
                                        elapsed_ms: 0,
                                        period_ms: crate::spell::bullets::BULLET_INTERVAL_MS,
                                    },
                                    fire_direction: match f {
                                        Some(ff) => ff.0,
                                        None => Vec2i { x: 0, y: 0 },
                                    },
                                },
                            ),
                        )
                    })
                }),
            },
    {
        let ci = match self.find_index(caster) {
            None => {
                return None;
            },
            Some(i) => i,
        };
        proof {
            self.lemma_index_unique(caster, ci as int);
            assert(rec_wf(self.entities@[ci as int], self.next_id));
        }
        let facing = self.entities[ci].facing;
        let session = crate::spell::bullets::cast_bullets(facing);
        let sid = self.spawn_entity(
            Some(caster),
            None,
            None,
            None,
            false,
            None,
            Some(Effect::BulletSession(session)),
            Vec2i::zero(),
        );
        Some(sid)
    }

    /// Cast a fireball: an independent projectile flying along the
    /// caster's facing (defaulting to +X) with one persistent untimed
    /// hitbox for the whole flight.  Returns the projectile and its
    /// velocity for the physics collaborator.
    pub fn spawn_fire_ball(&mut self, caster: u64) -> (r: Option<(u64, Vec2i)>)
        requires
            old(self).wf(),
            old(self).can_alloc(2),
        ensures
            final(self).wf(),
            final(self).pending_destroy@ == old(self).pending_destroy@,
            match r {
                None => !old(self).has_entity(caster) && *final(self) == *old(self),
                Some((fid, velocity)) => ({
                    let w0 = *old(self);
                    let f = w0.rec_of(caster).facing;
                    &&& w0.has_entity(caster)
                    &&& fid == w0.next_id
                    &&& final(self).next_id == w0.next_id + 2
                    &&& final(self).entities@.len() == w0.entities@.len() + 1
                    &&& (forall|j: int|
                        0 <= j < w0.entities@.len() ==> final(self).entities@[j]
                            == w0.entities@[j])
                    &&& ({
                        let d = match f {
                            Some(ff) => ff.0,
                            None => Vec2i { x: 1000, y: 0 },
                        };
                        velocity.x == crate::spell::fire_ball::FIRE_BALL_SPEED * d.x
                            && velocity.y == crate::spell::fire_ball::FIRE_BALL_SPEED * d.y
                    })
                    &&& ({
                        let nr = final(self).entities@.last();
                        &&& nr.id == fid
                        &&& nr.parent is None
                        &&& nr.health is None
                        &&& !nr.is_enemy
                        &&& nr.effect == Some(
                            Effect::FireBallEffect(
                                FireBall {
                                    live_timer: OnceTimer {
                                        elapsed_ms: 0,
                                        duration_ms: crate::spell::fire_ball::FIRE_BALL_LIVE_MS,
                                    },
                                    frame_timer: crate::timer::RepeatTimer {
                                        elapsed_ms: 0,
                                        period_ms: crate::spell::fire_ball::FIRE_BALL_FRAME_MS,
                                    },
                                    frame: 0,
                                    spawn_timer: crate::timer::RepeatTimer {
                                        elapsed_ms: 0,
                                        period_ms: crate::spell::fire_ball::FIRE_BALL_SPAWN_MS,
                                    },
                                },
                            ),
                        )
                        &&& nr.hitboxes@.len() == 1
                        &&& nr.hitboxes@[0].size == (Vec2i { x: 32000, y: 32000 })
                        &&& nr.hitboxes@[0].ttl is None
                    })
                }),
            },
    {
        let ci = match self.find_index(caster) {
            None => {
                return None;
            },
            Some(i) => i,
        };
        proof {
            self.lemma_index_unique(caster, ci as int);
            assert(rec_wf(self.entities@[ci as int], self.next_id));
        }
        let facing = self.entities[ci].facing;
        let spawn = crate::spell::fire_ball::cast_fire_ball(facing);
        let at = self.entities.len();
        let fid = self.spawn_entity(
            None,
            None,
            None,
            None,
            false,
            None,
            Some(Effect::FireBallEffect(spawn.fire_ball)),
            Vec2i::zero(),
        );
        self.attach_hitbox(at, crate::spell::fire_ball::fire_ball_hitbox_size(), None);
        Some((fid, spawn.velocity))
    }

    /// Re-route a collision-begin on a hitbox volume as a hit event scoped
    /// to the effect entity that owns the volume — never to the volume
    /// itself.  A contact on a volume no entity owns is not actionable.
    pub fn route_collision(&self, hitbox_id: u64, other: u64) -> (r: Option<(u64, HitEntityEvent)>)
        requires
            self.wf(),
        ensures
            match r {
                Some((owner, ev)) => {
                    &&& ev == HitEntityEvent(other)
                    &&& owner != hitbox_id
                    &&& exists|i: int|
                        0 <= i < self.entities@.len() && (#[trigger] self.entities@[i]).id
                            == owner && owns(self.entities@[i], hitbox_id)
                },
                None => forall|i: int|
                    0 <= i < self.entities@.len() ==> !owns(
                        #[trigger] self.entities@[i],
                        hitbox_id,
                    ),
            },
    {
        let n = self.entities.len();
        let mut i: usize = 0;
        while i < n
            invariant
                self.wf(),
                n == self.entities@.len(),
                i <= n,
                forall|k: int| 0 <= k < i ==> !owns(#[trigger] self.entities@[k], hitbox_id),
            decreases n - i,
        {
            if rec_owns(&self.entities[i], hitbox_id) {
                let owner = self.entities[i].id;
                proof {
                    if owner == hitbox_id {
                        assert(owns(self.entities@[i as int], self.entities@[i as int].id));
                    }
                }
                return Some((owner, HitEntityEvent(other)));
            }
            i += 1;
        }
        None
    }

    /// The index of the entity with the given id (meaningful only when
    /// `has_entity` holds; unique by well-formedness).
    pub open spec fn index_of(self, id: u64) -> int {
        choose|i: int| 0 <= i < self.entities@.len() && (#[trigger] self.entities@[i]).id == id
    }

    pub open spec fn rec_of(self, id: u64) -> EntityRec {
        self.entities@[self.index_of(id)]
    }

    /// An entity id names one index only.
    pub proof fn lemma_index_unique(self, id: u64, i: int)
        requires
            self.wf(),
            0 <= i < self.entities@.len(),
            self.entities@[i].id == id,
        ensures
            self.has_entity(id),
            i == self.index_of(id),
    {
        assert((#[trigger] self.entities@[i]).id == id);
        let j = self.index_of(id);
        if j != i {
            assert(self.entities@[j].id == id);
            if i < j {
                assert(self.entities@[i].id != self.entities@[j].id);
            } else {
                assert(self.entities@[j].id != self.entities@[i].id);
            }
        }
    }

    /// Ownership depends only on the hitbox list.
    proof fn lemma_owns_same(r1: EntityRec, r2: EntityRec, hid: u64)
        requires
            r1.hitboxes@ == r2.hitboxes@,
        ensures
            owns(r1, hid) == owns(r2, hid),
    {
        if owns(r1, hid) {
            let k = choose|k: int|
                0 <= k < r1.hitboxes@.len() && (#[trigger] r1.hitboxes@[k]).id == hid;
            assert(r2.hitboxes@[k].id == hid);
        }
        if owns(r2, hid) {
            let k = choose|k: int|
                0 <= k < r2.hitboxes@.len() && (#[trigger] r2.hitboxes@[k]).id == hid;
            assert(r1.hitboxes@[k].id == hid);
        }
    }

    /// A world whose entities keep their ids and hitbox lists — only
    /// other component fields changed — stays well formed, provided each
    /// record alone still is.
    proof fn lemma_wf_same_skeleton(self, prev: World)
        requires
            prev.wf(),
            self.entities@.len() == prev.entities@.len(),
            prev.next_id <= self.next_id,
            forall|j: int|
                0 <= j < prev.entities@.len() ==> ((#[trigger] self.entities@[j]).id
                    == prev.entities@[j].id && self.entities@[j].hitboxes@
                    == prev.entities@[j].hitboxes@),
            forall|j: int|
                0 <= j < self.entities@.len() ==> rec_wf(
                    #[trigger] self.entities@[j],
                    self.next_id,
                ),
        ensures
            self.wf(),
    {
        let n = self.entities@.len() as int;
        assert forall|a: int, b: int| 0 <= a < b < n implies (#[trigger] self.entities@[a]).id != (
        #[trigger] self.entities@[b]).id by {
            assert(prev.entities@[a].id != prev.entities@[b].id);
        }
        assert forall|a: int, b: int, hid: u64|
            0 <= a < n && 0 <= b < n && a != b implies !(#[trigger] owns(self.entities@[a], hid)
            && #[trigger] owns(self.entities@[b], hid)) by {
            if owns(self.entities@[a], hid) && owns(self.entities@[b], hid) {
                World::lemma_owns_same(self.entities@[a], prev.entities@[a], hid);
                World::lemma_owns_same(self.entities@[b], prev.entities@[b], hid);
                assert(!(owns(prev.entities@[a], hid) && owns(prev.entities@[b], hid)));
            }
        }
        assert forall|a: int, b: int| 0 <= a < n && 0 <= b < n implies !(#[trigger] owns(
            self.entities@[b],
            (#[trigger] self.entities@[a]).id,
        )) by {
            if owns(self.entities@[b], self.entities@[a].id) {
                World::lemma_owns_same(self.entities@[b], prev.entities@[b], self.entities@[a].id);
                assert(!owns(prev.entities@[b], prev.entities@[a].id));
            }
        }
    }

    /// What a hit by `effect_id` would do right now, if anything.
    pub open spec fn outcome_of(self, effect_id: u64) -> Option<HitOutcome> {
        if !self.has_entity(effect_id) {
            None
        } else {
            match self.rec_of(effect_id).effect {
                Some(e) => effect_outcome(e),
                None => None,
            }
        }
    }

    /// Whether a `HitEntityEvent(target)` scoped to `effect_id` is
    /// actionable: the effect reacts to hits, and the target is alive and
    /// carries health.  Hitting anything without health — scenery — is
    /// legal and ignored.
    pub open spec fn hit_applies(self, effect_id: u64, target: u64) -> bool {
        match self.outcome_of(effect_id) {
            Some(o) => self.has_entity(target) && self.rec_of(target).health is Some,
            None => false,
        }
    }

    /// Resolve a hit event scoped to `effect_id` against `target`: deduct
    /// the effect's damage from the target's health, report the knockback
    /// impulse for the physics collaborator, and — for single-hit
    /// projectiles — spend the hit and queue the effect's own (deferred)
    /// destruction.  A hit that is not actionable, including one on a
    /// projectile that already spent its single hit, changes nothing; the
    /// target is never despawned here.
    pub fn handle_hit(&mut self, effect_id: u64, target: u64) -> (knockback: Option<Vec2i>)
        requires
            old(self).wf(),
        ensures
            final(self).wf(),
            final(self).next_id == old(self).next_id,
            !old(self).hit_applies(effect_id, target) ==> (final(self).entities@ == old(self).entities@ && final(self).pending_destroy@ == old(self).pending_destroy@
                && knockback is None),
            old(self).hit_applies(effect_id, target) ==> (match old(self).outcome_of(effect_id) {
                Some(o) => ({
                    let w0 = *old(self);
                    let ti = w0.index_of(target);
                    let ei = w0.index_of(effect_id);
                    let s1 = w0.entities@.update(
                        ti,
                        rec_damaged(w0.entities@[ti], o.damage as int),
                    );
                    &&& final(self).entities@ == (if o.despawn_self {
                        s1.update(ei, rec_spent(s1[ei]))
                    } else {
                        s1
                    })
                    &&& final(self).pending_destroy@ == (if o.despawn_self {
                        w0.pending_destroy@.push(effect_id)
                    } else {
                        w0.pending_destroy@
                    })
                    &&& knockback == o.knockback
                }),
                None => false,
            }),
    {
        let ei = match self.find_index(effect_id) {
            None => {
                return None;
            },
            Some(i) => i,
        };
        proof {
            self.lemma_index_unique(effect_id, ei as int);
        }
        let eff = match &self.entities[ei].effect {
            None => {
                return None;
            },
            Some(e) => *e,
        };
        proof {
            assert(rec_wf(self.entities@[ei as int], self.next_id));
        }
        let outcome = match eff {
            Effect::Swing(a) => a.hit_outcome(),
            Effect::BeamEffect(b) => b.hit_outcome(),
            Effect::BulletSession(_) => {
                return None;
            },
            Effect::Pellet(b) => {
                if b.spent {
                    return None;
                }
                b.hit_outcome()
            },
            Effect::FireBallEffect(f) => f.hit_outcome(),
            Effect::Shard(s) => {
                if s.spent {
                    return None;
                }
                s.hit_outcome()
            },
        };
        let ti = match self.find_index(target) {
            None => {
                return None;
            },
            Some(i) => i,
        };
        proof {
            self.lemma_index_unique(target, ti as int);
        }
        let th = match self.entities[ti].health {
            None => {
                return None;
            },
            Some(h) => h.0,
        };
        let nh64: i64 = th as i64 - outcome.damage as i64;
        let nh: i32 = if nh64 < i32::MIN as i64 {
            i32::MIN
        } else if nh64 > i32::MAX as i64 {
            i32::MAX
        } else {
            nh64 as i32
        };
        let tr = &mut self.entities[ti];
        tr.health = Some(Health(nh));
        if outcome.despawn_self {
            let er = &mut self.entities[ei];
            match &mut er.effect {
                Some(Effect::Pellet(b)) => {
                    b.spent = true;
                },
                Some(Effect::Shard(s)) => {
                    s.spent = true;
                },
                _ => {},
            }
            self.pending_destroy.push(effect_id);
        }
        proof {
            assert forall|j: int| 0 <= j < self.entities@.len() implies rec_wf(
                #[trigger] self.entities@[j],
                self.next_id,
            ) by {
                assert(rec_wf(old(self).entities@[j], self.next_id));
            }
            self.lemma_wf_same_skeleton(*old(self));
            let w0 = *old(self);
            let s1 = w0.entities@.update(
                ti as int,
                rec_damaged(w0.entities@[ti as int], outcome.damage as int),
            );
            if outcome.despawn_self {
                assert(self.entities@ =~= s1.update(ei as int, rec_spent(s1[ei as int])));
            } else {
                assert(self.entities@ =~= s1);
            }
        }
        outcome.knockback
    }

    /// One logical frame: the per-entity systems run to completion in
    /// this fixed declared order — movement, skill reloads, spell state
    /// machines, hitbox upkeep — and every destruction queued along the
    /// way is applied once, at the boundary.  The returned trace holds
    /// the state after each stage and the survivor indices, and the
    /// contract chains the five stage relations through it, so the frame
    /// provably performs every stage.  Collision notifications for the
    /// frame are delivered by the physics collaborator before the combat
    /// stage, through `route_collision` and `handle_hit`.
    pub fn tick(&mut self, dt_ms: u32) -> (trace: Ghost<(World, World, World, World, Seq<int>)>)
        requires
            old(self).wf(),
            old(self).can_alloc(2 * old(self).entities@.len() as int),
        ensures
            final(self).wf(),
            final(self).pending_destroy@ == Seq::<u64>::empty(),
            moved_frame(*old(self), trace@.0, dt_ms as int),
            skills_frame(trace@.0, trace@.1, dt_ms as int),
            effects_frame(trace@.1, trace@.2, dt_ms as int),
            hitboxes_frame(trace@.2, trace@.3, dt_ms as int),
            destroys_frame(trace@.3, *final(self), trace@.4),
    {
        self.controll_entities(dt_ms);
        let ghost after_movement = *self;
        self.tick_skill_timers(dt_ms);
        let ghost after_skills = *self;
        self.update_effects(dt_ms);
        let ghost after_effects = *self;
        self.update_hitboxes(dt_ms);
        let ghost after_hitboxes = *self;
        let kept = self.apply_destroys();
        Ghost((after_movement, after_skills, after_effects, after_hitboxes, kept@))
    }

    /// Surviving a synchronization point never grants new hitboxes.
    proof fn lemma_owns_kept(r0: EntityRec, r1: EntityRec, pending: Seq<u64>, hid: u64)
        requires
            survivor_match(r0, r1, pending),
            owns(r1, hid),
        ensures
            owns(r0, hid),
    {
        lemma_kept_hitboxes_subset(r0.hitboxes@, pending);
        let k = choose|k: int|
            0 <= k < r1.hitboxes@.len() && (#[trigger] r1.hitboxes@[k]).id == hid;
        assert(r0.hitboxes@.contains(r1.hitboxes@[k]));
        let w = choose|w: int|
            0 <= w < r0.hitboxes@.len() && r0.hitboxes@[w] == r1.hitboxes@[k];
        assert(r0.hitboxes@[w].id == hid);
    }

    /// The synchronization point at the tick boundary: apply every queued
    /// destruction at once.  An entity dies when its own id or its
    /// parent's id was queued — children die with their parent — and a
    /// queued hitbox id strips that hitbox from its surviving owner.  The
    /// survivors keep their data and relative order, and the queue is then
    /// empty.  Returns the surviving indices, for reasoning.
    pub fn apply_destroys(&mut self) -> (kept: Ghost<Seq<int>>)
        requires
            old(self).wf(),
        ensures
            final(self).wf(),
            destroys_frame(*old(self), *final(self), kept@),
    {
        let n0 = self.entities.len();
        let ghost orig = self.entities@;
        let ghost pend = self.pending_destroy@;
        let mut kept_recs: Vec<EntityRec> = Vec::new();
        let ghost mut kidx: Seq<int> = Seq::empty();
        let mut processed: usize = 0;
        while self.entities.len() > 0
            invariant
                old(self).wf(),
                orig == old(self).entities@,
                orig.len() == n0,
                pend == old(self).pending_destroy@,
                self.pending_destroy@ == pend,
                self.next_id == old(self).next_id,
                processed <= n0,
                self.entities@ == orig.subrange(processed as int, orig.len() as int),
                kept_recs@.len() == kidx.len(),
                forall|a: int, b: int| 0 <= a < b < kidx.len() ==> kidx[a] < kidx[b],
                forall|k: int|
                    #![trigger kidx[k]]
                    0 <= k < kidx.len() ==> (0 <= kidx[k] < processed && !destroyed(
                        orig[kidx[k]],
                        pend,
                    ) && survivor_match(orig[kidx[k]], kept_recs@[k], pend)),
                forall|j: int|
                    0 <= j < processed && !destroyed(#[trigger] orig[j], pend) ==> kidx.contains(
                        j,
                    ),
            decreases self.entities@.len(),
        {
            let mut r = self.entities.remove(0);
            proof {
                assert(r == orig[processed as int]);
                assert(self.entities@ =~= orig.subrange(
                    processed as int + 1,
                    orig.len() as int,
                ));
            }
            let dead = vec_contains(&self.pending_destroy, r.id) || (match r.parent {
                Some(p) => vec_contains(&self.pending_destroy, p),
                None => false,
            });
            if !dead {
                let fh = kept_of(&r.hitboxes, &self.pending_destroy);
                r.hitboxes = fh;
                kept_recs.push(r);
                proof {
                    let k0 = kidx;
                    kidx = kidx.push(processed as int);
                    assert(kidx[kidx.len() - 1] == processed as int);
                    assert(kidx.contains(processed as int));
                    assert forall|j: int| #[trigger] k0.contains(j) implies kidx.contains(j) by {
                        let w = choose|w: int| 0 <= w < k0.len() && k0[w] == j;
                        assert(kidx[w] == j);
                    }
                    assert(survivor_match(
                        orig[processed as int],
                        kept_recs@[kept_recs@.len() - 1],
                        pend,
                    ));
                }
            } else {
                proof {
                    assert(destroyed(orig[processed as int], pend));
                }
            }
            processed += 1;
        }
        self.entities = kept_recs;
        self.pending_destroy = Vec::new();
        proof {
            assert(processed == orig.len());
            let n1 = self.entities@.len() as int;
            assert forall|k: int| 0 <= k < n1 implies rec_wf(
                #[trigger] self.entities@[k],
                self.next_id,
            ) by {
                assert(kidx[k] == kidx[k]);
                let j = kidx[k];
                assert(rec_wf(orig[j], old(self).next_id));
                assert(survivor_match(orig[j], self.entities@[k], pend));
                lemma_kept_hitboxes_subset(orig[j].hitboxes@, pend);
                assert forall|w: int| 0 <= w < self.entities@[k].hitboxes@.len() implies ((
                #[trigger] self.entities@[k].hitboxes@[w]).wf()
                    && self.entities@[k].hitboxes@[w].id < self.next_id) by {
                    assert(orig[j].hitboxes@.contains(self.entities@[k].hitboxes@[w]));
                    let u = choose|u: int|
                        0 <= u < orig[j].hitboxes@.len() && orig[j].hitboxes@[u]
                            == self.entities@[k].hitboxes@[w];
                    assert(orig[j].hitboxes@[u].wf() && orig[j].hitboxes@[u].id
                        < old(self).next_id);
                }
            }
            assert forall|a: int, b: int| 0 <= a < b < n1 implies (
            #[trigger] self.entities@[a]).id != (#[trigger] self.entities@[b]).id by {
                assert(kidx[a] < kidx[b]);
                assert(orig[kidx[a]].id != orig[kidx[b]].id);
                assert(survivor_match(orig[kidx[a]], self.entities@[a], pend));
                assert(survivor_match(orig[kidx[b]], self.entities@[b], pend));
            }
            assert forall|a: int, b: int, hid: u64|
                0 <= a < n1 && 0 <= b < n1 && a != b implies !(#[trigger] owns(
                self.entities@[a],
                hid,
            ) && #[trigger] owns(self.entities@[b], hid)) by {
                if owns(self.entities@[a], hid) && owns(self.entities@[b], hid) {
                    assert(kidx[a] == kidx[a] && kidx[b] == kidx[b]);
                    assert(survivor_match(orig[kidx[a]], self.entities@[a], pend));
                    assert(survivor_match(orig[kidx[b]], self.entities@[b], pend));
                    World::lemma_owns_kept(orig[kidx[a]], self.entities@[a], pend, hid);
                    World::lemma_owns_kept(orig[kidx[b]], self.entities@[b], pend, hid);
                    if a < b {
                        assert(kidx[a] < kidx[b]);
                    } else {
                        assert(kidx[b] < kidx[a]);
                    }
                    assert(!(owns(orig[kidx[a]], hid) && owns(orig[kidx[b]], hid)));
                }
            }
            assert forall|a: int, b: int| 0 <= a < n1 && 0 <= b < n1 implies !(#[trigger] owns(
                self.entities@[b],
                (#[trigger] self.entities@[a]).id,
            )) by {
                if owns(self.entities@[b], self.entities@[a].id) {
                    assert(kidx[a] == kidx[a] && kidx[b] == kidx[b]);
                    assert(survivor_match(orig[kidx[a]], self.entities@[a], pend));
                    assert(survivor_match(orig[kidx[b]], self.entities@[b], pend));
                    World::lemma_owns_kept(
                        orig[kidx[b]],
                        self.entities@[b],
                        pend,
                        self.entities@[a].id,
                    );
                    assert(!owns(orig[kidx[b]], orig[kidx[a]].id));
                }
            }
        }
        Ghost(kidx)
    }

    /// Pushing one fresh record — its id the old counter, its hitbox ids
    /// at least the old counter and below the new one — keeps the world
    /// well formed.
    proof fn lemma_wf_after_spawn(self, prev: World, rec: EntityRec)
        requires
            prev.wf(),
            self.entities@ == prev.entities@.push(rec),
            self.pending_destroy@ == prev.pending_destroy@,
            prev.next_id <= self.next_id,
            rec.id >= prev.next_id,
            rec_wf(rec, self.next_id),
            forall|k: int|
                0 <= k < rec.hitboxes@.len() ==> ((#[trigger] rec.hitboxes@[k]).id
                    >= prev.next_id && rec.hitboxes@[k].id != rec.id),
        ensures
            self.wf(),
    {
        let n = self.entities@.len() as int;
        let last = n - 1;
        assert forall|i: int| 0 <= i < n implies rec_wf(#[trigger] self.entities@[i], self.next_id)
            by {
            if i < last {
                lemma_rec_wf_grow(prev.entities@[i], prev.next_id, self.next_id);
            }
        }
        assert forall|i: int, j: int| 0 <= i < j < n implies (#[trigger] self.entities@[i]).id != (
        #[trigger] self.entities@[j]).id by {
            if j < last {
                assert(prev.entities@[i].id != prev.entities@[j].id);
            } else {
                assert(rec_wf(prev.entities@[i], prev.next_id));
            }
        }
        assert forall|i: int, j: int, hid: u64|
            0 <= i < n && 0 <= j < n && i != j implies !(#[trigger] owns(self.entities@[i], hid)
            && #[trigger] owns(self.entities@[j], hid)) by {
            if owns(self.entities@[i], hid) && owns(self.entities@[j], hid) {
                if i < last && j < last {
                    assert(!(owns(prev.entities@[i], hid) && owns(prev.entities@[j], hid)));
                } else if i == last {
                    assert(rec_wf(prev.entities@[j], prev.next_id));
                    lemma_owned_bound(prev.entities@[j], prev.next_id, hid);
                    let k = choose|k: int|
                        0 <= k < rec.hitboxes@.len() && (#[trigger] rec.hitboxes@[k]).id == hid;
                    assert(rec.hitboxes@[k].id >= prev.next_id);
                } else {
                    assert(rec_wf(prev.entities@[i], prev.next_id));
                    lemma_owned_bound(prev.entities@[i], prev.next_id, hid);
                    let k = choose|k: int|
                        0 <= k < rec.hitboxes@.len() && (#[trigger] rec.hitboxes@[k]).id == hid;
                    assert(rec.hitboxes@[k].id >= prev.next_id);
                }
            }
        }
        assert forall|i: int, j: int| 0 <= i < n && 0 <= j < n implies !(#[trigger] owns(
            self.entities@[j],
            (#[trigger] self.entities@[i]).id,
        )) by {
            if owns(self.entities@[j], self.entities@[i].id) {
                if i < last && j < last {
                    assert(!owns(prev.entities@[j], prev.entities@[i].id));
                } else if j == last {
                    // a hitbox of the new record would collide with an entity id
                    let k = choose|k: int|
                        0 <= k < rec.hitboxes@.len() && (#[trigger] rec.hitboxes@[k]).id
                            == self.entities@[i].id;
                    assert(rec.hitboxes@[k].id >= prev.next_id);
                    assert(rec.hitboxes@[k].id != rec.id);
                    if i < last {
                        assert(rec_wf(prev.entities@[i], prev.next_id));
                    }
                } else {
                    // j < last, i == last: an old hitbox would equal the fresh id
                    assert(rec_wf(prev.entities@[j], prev.next_id));
                    lemma_owned_bound(prev.entities@[j], prev.next_id, rec.id);
                }
            }
        }
    }
}

fn vec_contains(v: &Vec<u64>, x: u64) -> (b: bool)
    ensures
        b == v@.contains(x),
{
    let n = v.len();
    let mut i: usize = 0;
    while i < n
        invariant
            n == v@.len(),
            i <= n,
            forall|k: int| 0 <= k < i ==> v@[k] != x,
        decreases n - i,
    {
        if v[i] == x {
            return true;
        }
        i += 1;
    }
    false
}

/// The hitboxes not named by a queued destruction request, in order.
fn kept_of(hbs: &Vec<Hitbox>, pending: &Vec<u64>) -> (r: Vec<Hitbox>)
    ensures
        r@ == kept_hitboxes(hbs@, pending@),
{
    let n = hbs.len();
    let mut out: Vec<Hitbox> = Vec::new();
    let mut k: usize = 0;
    while k < n
        invariant
            n == hbs@.len(),
            k <= n,
            out@ == kept_hitboxes(hbs@.take(k as int), pending@),
        decreases n - k,
    {
        let h = hbs[k];
        proof {
            assert(hbs@.take(k as int + 1).drop_last() =~= hbs@.take(k as int));
            assert(hbs@.take(k as int + 1).last() == h);
        }
        if !vec_contains(pending, h.id) {
            out.push(h);
        }
        k += 1;
    }
    proof {
        assert(hbs@.take(n as int) =~= hbs@);
    }
    out
}

/// Whether this record owns the hitbox with identifier `hid`.
fn rec_owns(r: &EntityRec, hid: u64) -> (b: bool)
    ensures
        b == owns(*r, hid),
{
    let n = r.hitboxes.len();
    let mut k: usize = 0;
    while k < n
        invariant
            n == r.hitboxes@.len(),
            k <= n,
            forall|j: int| 0 <= j < k ==> (#[trigger] r.hitboxes@[j]).id != hid,
        decreases n - k,
    {
        if r.hitboxes[k].id == hid {
            return true;
        }
        k += 1;
    }
    false
}

/// Single-hit projectiles are idempotent: once a pellet or a shard has
/// spent its one hit, it reacts to no further hit event — even while its
/// deferred destruction is still pending at the tick boundary.
pub proof fn lemma_single_hit_inert(e: Effect)
    requires
        e is Pellet || e is Shard,
    ensures
        effect_outcome(mark_spent(e)) is None,
{
}

/// The fireball pierces: its hit outcome exists, deals its flat damage
/// and never asks for the fireball's own destruction, so sequential hits
/// each deduct damage independently.
pub proof fn lemma_fireball_pierces(e: Effect)
    requires
        e is FireBallEffect,
    ensures
        match effect_outcome(e) {
            Some(o) => o.damage == crate::spell::fire_ball::FIRE_BALL_DAMAGE && !o.despawn_self,
            None => false,
        },
{
}

/// Hit routing is exclusive: a single physical contact on one hitbox
/// volume is scoped to exactly one owning effect entity.
pub proof fn lemma_hit_routing_exclusive(w: World, hitbox_id: u64, i1: int, i2: int)
    requires
        w.wf(),
        0 <= i1 < w.entities@.len(),
        0 <= i2 < w.entities@.len(),
        owns(w.entities@[i1], hitbox_id),
        owns(w.entities@[i2], hitbox_id),
    ensures
        i1 == i2,
{
}

} // verus!

