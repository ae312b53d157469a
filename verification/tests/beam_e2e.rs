use combat::geom::Vec2i;
use combat::health::Health;
use combat::living_entity::FacingDirection;
use combat::world::World;

// Cast a beam with facing (1, 0) and run two seconds in 0.1 s ticks:
// expect exactly ten hitbox (re-)spawns — one every 0.2 s — and, against
// one stationary target continuously overlapping the beam, ten damage
// applications of the beam's per-hit amount.
//
// The physics collaborator is played by the loop below: after the spell
// stage of each tick it reports one collision-begin per fresh (hitbox,
// target) contact, before hitbox upkeep and the destruction boundary, as
// the per-tick ordering prescribes.
#[test]
fn beam_over_two_seconds_hits_ten_times() {
    let mut w = World::new();
    let caster = w.spawn_entity(
        None,
        None,
        Some(FacingDirection(Vec2i { x: 1000, y: 0 })),
        None,
        false,
        None,
        None,
        Vec2i { x: 0, y: 0 },
    );
    let target = w.spawn_entity(None, None, None, Some(Health(100)), true, None, None, Vec2i {
        x: 0,
        y: 0,
    });

    let (beam, direction, _offset) = w.cast_beam(caster).expect("caster exists");
    assert_eq!(direction, Vec2i { x: 1000, y: 0 });

    let mut seen_hitboxes: Vec<u64> = Vec::new();
    let mut spawns = 0;
    let mut damage_events = 0;

    for _ in 0..20 {
        let dt = 100;
        w.controll_entities(dt);
        w.tick_skill_timers(dt);
        w.update_effects(dt);

        // physics: report each fresh contact exactly once per pair
        let fresh: Vec<u64> = w
            .entities
            .iter()
            .filter(|r| r.id == beam)
            .flat_map(|r| r.hitboxes.iter().map(|h| h.id))
            .filter(|hid| !seen_hitboxes.contains(hid))
            .collect();
        for hid in fresh {
            seen_hitboxes.push(hid);
            spawns += 1;
            let (owner, ev) = w.route_collision(hid, target).expect("beam owns its hitbox");
            assert_eq!(owner, beam);
            w.handle_hit(owner, ev.0);
            damage_events += 1;
        }

        w.update_hitboxes(dt);
        let _ = w.apply_destroys();
    }

    assert_eq!(spawns, 10, "one hitbox re-spawn every 0.2 s over 2 s");
    assert_eq!(damage_events, 10);
    let health = w
        .entities
        .iter()
        .find(|r| r.id == target)
        .and_then(|r| r.health)
        .expect("the target is never despawned by the beam");
    assert_eq!(health.0, 90, "ten applications of the beam's per-hit damage");
    assert!(
        !w.entities.iter().any(|r| r.id == beam),
        "the beam expires at the end of its two seconds"
    );
}

#[test]
fn whole_tick_keeps_the_declared_order() {
    // One World::tick runs every system and applies the destruction queue.
    let mut w = World::new();
    let caster = w.spawn_entity(
        None,
        None,
        Some(FacingDirection(Vec2i { x: 1000, y: 0 })),
        None,
        false,
        None,
        None,
        Vec2i { x: 0, y: 0 },
    );
    let (_beam, _, _) = w.cast_beam(caster).unwrap();
    for _ in 0..20 {
        w.tick(100);
        assert!(w.pending_destroy.is_empty(), "the queue is drained once per tick");
    }
    assert!(w.entities.iter().all(|r| r.effect.is_none()), "the beam is gone after 2 s");
}
