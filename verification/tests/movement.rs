use combat::ease::ease_out_sine_milli;
use combat::geom::Vec2i;
use combat::living_entity::{EntityController, EntityState, EntityStats, FacingDirection};
use combat::trig::{cos_milli, rotate_dir_milli, sin_milli};

fn mover(max_speed: u32, direction: Vec2i) -> EntityController {
    EntityController {
        state: EntityState::Move { direction },
        stats: EntityStats { max_speed },
        accel_elapsed_ms: 0,
    }
}

#[test]
fn ease_curve_endpoints() {
    assert_eq!(ease_out_sine_milli(0), 0);
    assert_eq!(ease_out_sine_milli(1000), 1000);
}

#[test]
fn ease_curve_exact_midpoint() {
    // u = 500 * 1500 = 750_000; 4000 * u / (5_000_000 - u) = 3e9 / 4_250_000
    assert_eq!(ease_out_sine_milli(500), 705);
}

#[test]
fn ease_curve_monotone_samples() {
    let mut last = 0;
    for p in 0..=1000 {
        let v = ease_out_sine_milli(p);
        assert!(v >= last, "curve dipped at {p}");
        assert!(v <= 1000);
        last = v;
    }
}

#[test]
fn held_move_speed_never_decreases_and_tops_out() {
    // Movement easing monotonicity over the 200 ms acceleration window.
    let mut c = mover(300000, Vec2i { x: 1000, y: 0 });
    let mut last = 0;
    let mut elapsed = 0;
    for _ in 0..10 {
        let v = c.tick(40);
        elapsed += 40;
        assert!(v.x >= last, "speed decreased while Move was held");
        assert_eq!(v.y, 0);
        last = v.x;
        if elapsed >= 200 {
            assert_eq!(v.x, 300000, "speed must equal max_speed once the window elapsed");
        }
    }
}

#[test]
fn idle_resets_the_ease_curve() {
    // Idle reset: Move, then Idle, then Move restarts from zero.
    let d = Vec2i { x: 1000, y: 0 };
    let mut c = mover(300000, d);
    c.tick(120);
    let v_fresh = {
        let mut fresh = mover(300000, d);
        fresh.tick(40)
    };
    c.state = EntityState::Idle;
    let stopped = c.tick(40);
    assert_eq!(stopped, Vec2i { x: 0, y: 0 });
    assert_eq!(c.accel_elapsed_ms, 0);
    c.state = EntityState::Move { direction: d };
    let v_restarted = c.tick(40);
    assert_eq!(v_restarted, v_fresh, "curve must restart from zero, not resume mid-curve");
}

#[test]
fn idle_zeroes_velocity() {
    let mut c = EntityController::default();
    let v = c.tick(100);
    assert_eq!(v, Vec2i { x: 0, y: 0 });
}

#[test]
fn facing_follows_movement_only() {
    let d = Vec2i { x: 0, y: -1000 };
    let mut facing = FacingDirection(Vec2i { x: 1000, y: 0 });
    let mut c = mover(50000, d);
    c.tick(50);
    c.update_facing(&mut facing);
    assert_eq!(facing.0, d);
    c.state = EntityState::Idle;
    c.tick(50);
    c.update_facing(&mut facing);
    assert_eq!(facing.0, d, "facing persists from the last movement while idle");
}

#[test]
fn diagonal_move_scales_both_components() {
    let d = Vec2i { x: 707, y: 707 };
    let mut c = mover(100000, d);
    for _ in 0..5 {
        c.tick(100);
    }
    let v = c.tick(100);
    // window fully elapsed: v = d * max_speed / 1000
    assert_eq!(v, Vec2i { x: 70700, y: 70700 });
}

#[test]
fn trig_spot_values() {
    assert_eq!(sin_milli(0), 0);
    assert_eq!(sin_milli(1570), 999);
    assert_eq!(sin_milli(3141), 0);
    assert!(sin_milli(4712) < -990);
    assert_eq!(cos_milli(0), 999);
    for t in (0..=6282).step_by(99) {
        assert!(sin_milli(t).abs() <= 1000);
        assert!(cos_milli(t).abs() <= 1000);
    }
}

#[test]
fn random_draws_stay_below_their_bound() {
    for n in [1u32, 2, 7, 6283] {
        for _ in 0..50 {
            assert!(combat::rng::random_below(n) < n);
        }
    }
}

#[test]
fn rotation_keeps_directions_bounded() {
    let x_unit = Vec2i { x: 1000, y: 0 };
    let r0 = rotate_dir_milli(x_unit, 0);
    assert_eq!(r0, Vec2i { x: 999, y: 0 });
    let quarter = rotate_dir_milli(x_unit, 1570);
    assert!(quarter.x.abs() <= 20 && quarter.y >= 990);
    for t in (0..=6282).step_by(57) {
        let r = rotate_dir_milli(Vec2i { x: 707, y: -707 }, t);
        assert!(r.x.abs() <= 1000 && r.y.abs() <= 1000);
    }
}
