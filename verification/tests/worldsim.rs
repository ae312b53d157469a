use combat::geom::Vec2i;
use combat::health::Health;
use combat::living_entity::FacingDirection;
use combat::player::spawn_player;
use combat::world::{Effect, World};

fn idx_of(w: &World, id: u64) -> usize {
    w.entities.iter().position(|r| r.id == id).expect("entity must be alive")
}

fn health_of(w: &World, id: u64) -> i32 {
    w.entities[idx_of(w, id)].health.expect("entity must carry health").0
}

fn alive(w: &World, id: u64) -> bool {
    w.entities.iter().any(|r| r.id == id)
}

fn spawn_caster(w: &mut World, facing: Option<(i32, i32)>) -> u64 {
    let f = facing.map(|(x, y)| FacingDirection(Vec2i { x, y }));
    w.spawn_entity(None, None, f, None, false, None, None, Vec2i { x: 0, y: 0 })
}

fn spawn_enemy(w: &mut World, hp: i32) -> u64 {
    w.spawn_entity(None, None, None, Some(Health(hp)), true, None, None, Vec2i { x: 0, y: 0 })
}

#[test]
fn hit_routing_targets_the_owner_not_the_hitbox() {
    // A collision-begin on a hitbox child of effect entity E yields one
    // HitEntity(T) event scoped to E.
    let mut w = World::new();
    let caster = spawn_caster(&mut w, Some((1000, 0)));
    let target = spawn_enemy(&mut w, 10);
    let (attack, _offset) = w.spawn_basic_attack(caster).expect("caster exists");
    let hitbox_id = {
        let r = &w.entities[idx_of(&w, attack)];
        assert_eq!(r.hitboxes.len(), 1);
        r.hitboxes[0].id
    };
    let (owner, ev) = w.route_collision(hitbox_id, target).expect("owned hitbox routes");
    assert_eq!(owner, attack, "the event is scoped to the owning effect entity");
    assert_ne!(owner, hitbox_id);
    assert_eq!(ev.0, target);
    assert!(w.route_collision(99999, target).is_none(), "unowned volume is not actionable");
}

#[test]
fn melee_hit_deals_damage_and_knockback() {
    let mut w = World::new();
    let caster = spawn_caster(&mut w, Some((0, 1000)));
    let target = spawn_enemy(&mut w, 10);
    let (attack, offset) = w.spawn_basic_attack(caster).unwrap();
    assert_eq!(offset, Vec2i { x: 0, y: 32000 });
    let kb = w.handle_hit(attack, target);
    assert_eq!(health_of(&w, target), 6);
    assert_eq!(kb, Some(Vec2i { x: 0, y: 30000 }));
    // target is never despawned by the hit handler
    let _ = w.apply_destroys();
    assert!(alive(&w, target));
    assert!(alive(&w, attack), "the swing does not despawn on hit");
}

#[test]
fn hit_on_healthless_scenery_is_a_no_op() {
    let mut w = World::new();
    let caster = spawn_caster(&mut w, Some((1000, 0)));
    let scenery = w.spawn_entity(None, None, None, None, false, None, None, Vec2i { x: 0, y: 0 });
    let (attack, _) = w.spawn_basic_attack(caster).unwrap();
    assert_eq!(w.handle_hit(attack, scenery), None);
    assert_eq!(w.handle_hit(attack, 424242), None, "a vanished target is skipped");
}

#[test]
fn pellet_hits_once_even_with_deferred_destroy() {
    // Single-hit projectile idempotence: one damage event, destruction
    // queued, no second damage while the destroy is still pending.
    let mut w = World::new();
    let caster = spawn_caster(&mut w, Some((1000, 0)));
    let session = w.cast_bullets_observer(caster).unwrap();
    // run until the session has fired at least one pellet
    w.update_effects(30);
    let pellet = w
        .entities
        .iter()
        .find(|r| matches!(r.effect, Some(Effect::Pellet(_))))
        .expect("one pellet fired after 30 ms")
        .id;
    let enemy = spawn_enemy(&mut w, 10);
    assert_eq!(w.handle_hit(pellet, enemy), None);
    assert_eq!(health_of(&w, enemy), 9);
    assert!(alive(&w, pellet), "destruction is deferred to the tick boundary");
    // a second contact before the boundary must not deal damage again
    w.handle_hit(pellet, enemy);
    assert_eq!(health_of(&w, enemy), 9, "a spent pellet deals no second damage");
    let _ = w.apply_destroys();
    assert!(!alive(&w, pellet), "the pellet dies at the synchronization point");
    assert!(alive(&w, session));
    assert!(alive(&w, enemy));
}

#[test]
fn pellets_hurt_any_health_target() {
    // One contract for every damage handler: a target carrying health
    // takes the flat damage, whatever else it is.
    let mut w = World::new();
    let caster = spawn_caster(&mut w, None);
    let _session = w.cast_bullets_observer(caster).unwrap();
    w.update_effects(30);
    let pellet = w
        .entities
        .iter()
        .find(|r| matches!(r.effect, Some(Effect::Pellet(_))))
        .unwrap()
        .id;
    let bystander =
        w.spawn_entity(None, None, None, Some(Health(10)), false, None, None, Vec2i { x: 0, y: 0 });
    w.handle_hit(pellet, bystander);
    assert_eq!(health_of(&w, bystander), 9, "any health-bearing target takes pellet damage");
    let _ = w.apply_destroys();
    assert!(!alive(&w, pellet), "the pellet spent its single hit");
    assert!(alive(&w, bystander));
}

#[test]
fn bullet_session_fires_twenty_and_self_destructs() {
    let mut w = World::new();
    let caster = spawn_caster(&mut w, Some((1000, 0)));
    let session = w.cast_bullets_observer(caster).unwrap();
    let mut pellets = 0;
    for _ in 0..25 {
        let before = w.entities.len();
        w.update_effects(30);
        pellets += w.entities.len() - before;
        let _ = w.apply_destroys();
    }
    assert_eq!(pellets, 20, "a session fires exactly twenty pellets");
    assert!(!alive(&w, session), "the session self-destructs when the count runs out");
    for r in w.entities.iter() {
        if let Some(Effect::Pellet(_)) = r.effect {
            assert!(r.velocity.x.abs() <= 300_000 && r.velocity.y.abs() <= 300_000);
            assert_eq!(r.hitboxes.len(), 1);
            assert!(r.hitboxes[0].ttl.is_none());
        }
    }
}

#[test]
fn fireball_pierces_through_many_hits() {
    // Piercing projectile: N sequential hits each deduct damage and never
    // queue the fireball's own destruction.
    let mut w = World::new();
    let caster = spawn_caster(&mut w, Some((1000, 0)));
    let (fb, velocity) = w.spawn_fire_ball(caster).unwrap();
    assert_eq!(velocity, Vec2i { x: 50000, y: 0 });
    let enemy = spawn_enemy(&mut w, 100);
    for expected in [95, 90, 85] {
        w.handle_hit(fb, enemy);
        assert_eq!(health_of(&w, enemy), expected);
        assert!(w.pending_destroy.is_empty(), "a fireball hit never queues its own destruction");
    }
    let _ = w.apply_destroys();
    assert!(alive(&w, fb));
}

#[test]
fn fireball_sheds_single_hit_shards() {
    let mut w = World::new();
    let caster = spawn_caster(&mut w, Some((1000, 0)));
    let (_fb, _) = w.spawn_fire_ball(caster).unwrap();
    w.update_effects(20);
    let shard = w
        .entities
        .iter()
        .find(|r| matches!(r.effect, Some(Effect::Shard(_))))
        .expect("a shard is shed every 20 ms")
        .id;
    let enemy = spawn_enemy(&mut w, 10);
    w.handle_hit(shard, enemy);
    assert_eq!(health_of(&w, enemy), 9);
    w.handle_hit(shard, enemy);
    assert_eq!(health_of(&w, enemy), 9, "a spent shard deals no second damage");
    let _ = w.apply_destroys();
    assert!(!alive(&w, shard), "shards self-destruct on their first hit");
}

#[test]
fn melee_swing_expires_after_its_frames() {
    let mut w = World::new();
    let caster = spawn_caster(&mut w, Some((1000, 0)));
    let (attack, _) = w.spawn_basic_attack(caster).unwrap();
    for _ in 0..3 {
        w.update_effects(50);
        let _ = w.apply_destroys();
        assert!(alive(&w, attack));
    }
    w.update_effects(50);
    let _ = w.apply_destroys();
    assert!(!alive(&w, attack), "the swing despawns after its final frame");
}

#[test]
fn destruction_cascades_to_children() {
    let mut w = World::new();
    let caster = spawn_caster(&mut w, Some((1000, 0)));
    let (attack, _) = w.spawn_basic_attack(caster).unwrap();
    let hitbox_id = w.entities[idx_of(&w, attack)].hitboxes[0].id;
    w.queue_destroy(caster);
    let _ = w.apply_destroys();
    assert!(!alive(&w, caster));
    assert!(!alive(&w, attack), "a child dies with its parent");
    assert!(w.route_collision(hitbox_id, 1).is_none(), "its hitboxes die with it");
    assert!(w.pending_destroy.is_empty(), "the queue drains at the boundary");
}

#[test]
fn timed_hitboxes_expire() {
    let mut w = World::new();
    let caster = spawn_caster(&mut w, Some((1000, 0)));
    let beam = {
        let (b, direction, offset) = w.cast_beam(caster).unwrap();
        assert_eq!(direction, Vec2i { x: 1000, y: 0 });
        assert_eq!(offset, Vec2i { x: 400000, y: 0 });
        b
    };
    w.update_effects(200);  // beam fires its first hitbox
    assert_eq!(w.entities[idx_of(&w, beam)].hitboxes.len(), 1);
    w.update_hitboxes(100);
    let _ = w.apply_destroys();
    assert_eq!(w.entities[idx_of(&w, beam)].hitboxes.len(), 1, "alive at 100 of 200 ms");
    w.update_hitboxes(100);
    let _ = w.apply_destroys();
    assert_eq!(w.entities[idx_of(&w, beam)].hitboxes.len(), 0, "expired at its time-to-live");
}

#[test]
fn casts_default_to_facing_plus_x() {
    // A caster without a facing: beam and fireball fall back to +X, a
    // melee swing stays in place with no push direction.
    let mut w = World::new();
    let caster = spawn_caster(&mut w, None);
    let (_, direction, offset) = w.cast_beam(caster).unwrap();
    assert_eq!(direction, Vec2i { x: 1000, y: 0 });
    assert_eq!(offset, Vec2i { x: 400000, y: 0 });
    let (_, velocity) = w.spawn_fire_ball(caster).unwrap();
    assert_eq!(velocity, Vec2i { x: 50000, y: 0 });
    let (attack, offset) = w.spawn_basic_attack(caster).unwrap();
    assert_eq!(offset, Vec2i { x: 0, y: 0 });
    let dummy = spawn_enemy(&mut w, 10);
    assert_eq!(w.handle_hit(attack, dummy), Some(Vec2i { x: 0, y: 0 }));
}

#[test]
fn casts_on_a_vanished_caster_are_skipped() {
    let mut w = World::new();
    let before = w.entities.len();
    assert!(w.spawn_basic_attack(999).is_none());
    assert!(w.cast_beam(999).is_none());
    assert!(w.cast_bullets_observer(999).is_none());
    assert!(w.spawn_fire_ball(999).is_none());
    assert_eq!(w.entities.len(), before);
}

#[test]
fn shards_fly_in_unit_directions() {
    let mut w = World::new();
    let caster = spawn_caster(&mut w, Some((1000, 0)));
    let _ = w.spawn_fire_ball(caster).unwrap();
    for _ in 0..10 {
        w.update_effects(20);
    }
    let mut shards = 0;
    for r in w.entities.iter() {
        if let Some(Effect::Shard(_)) = r.effect {
            shards += 1;
            assert!(r.velocity.x.abs() <= 200_000 && r.velocity.y.abs() <= 200_000);
        }
    }
    assert_eq!(shards, 10, "one shard shed per 20 ms of flight");
}

#[test]
fn cast_gate_blocks_and_fires() {
    let mut w = World::new();
    let (player, _xp) = spawn_player(&mut w);
    let before = w.entities.len();
    assert!(!w.try_cast_skill(player, "Beam".to_string()), "locked skill never casts");
    assert!(!w.try_cast_skill(player, "Slash".to_string()), "cold reload never casts");
    assert_eq!(w.entities.len(), before);
    w.tick_skill_timers(200);
    assert!(w.try_cast_skill(player, "Slash".to_string()));
    w.spawn_basic_attack(player).unwrap();
    assert_eq!(w.entities.len(), before + 1);
    assert!(!w.try_cast_skill(player, "Slash".to_string()), "reload restarted by the cast");
}
