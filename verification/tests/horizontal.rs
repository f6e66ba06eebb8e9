use platformer_core::player::{accelerate, gravity, PlayerMovement, Vec2, Vel};

fn grounded_runner() -> PlayerMovement {
    let mut p = PlayerMovement::default();
    let r = p.derive_jump_constants();
    assert!(r.is_ok());
    p.on_floor = true;
    p.move_axis = Vec2 { x: 1000, y: 0 };
    p
}

#[test]
fn one_smoothing_step_is_exact() {
    // speed 350, acceleration 10, dt 16 ms: factor 0.16, step 56.
    let p = grounded_runner();
    let mut v = Vel(Vec2 { x: 0, y: 0 });
    accelerate(&p, &mut v, 16);
    assert_eq!(v.0.x, 56_000);
}

#[test]
fn air_control_damps_acceleration() {
    let mut p = grounded_runner();
    p.on_floor = false;
    // rate 10 * 0.9 = 9, factor 0.144, step 50.4.
    let mut v = Vel(Vec2 { x: 0, y: 0 });
    accelerate(&p, &mut v, 16);
    assert_eq!(v.0.x, 50_400);
}

#[test]
fn velocity_converges_to_target_without_overshoot() {
    let p = grounded_runner();
    let mut v = Vel(Vec2 { x: 0, y: 0 });
    for _ in 0..2000 {
        accelerate(&p, &mut v, 16);
        assert!(v.0.x <= 350_000);
    }
    // Within the snap epsilon (0.01) of move_axis.x * speed.
    assert!((350_000 - v.0.x).abs() < 10);
}

#[test]
fn deceleration_snaps_residual_creep_to_exact_zero() {
    let mut p = grounded_runner();
    p.move_axis = Vec2 { x: 0, y: 0 };
    let mut v = Vel(Vec2 { x: 350_000, y: 0 });
    let mut reached_zero = false;
    for _ in 0..2000 {
        accelerate(&p, &mut v, 16);
        assert!(v.0.x >= 0);
        if v.0.x == 0 {
            reached_zero = true;
            break;
        }
    }
    assert!(reached_zero);
}

#[test]
fn small_creep_snaps_immediately() {
    let mut p = grounded_runner();
    p.move_axis = Vec2 { x: 0, y: 0 };
    let mut v = Vel(Vec2 { x: 5, y: 0 });
    accelerate(&p, &mut v, 16);
    assert_eq!(v.0.x, 0);
}

#[test]
fn leftward_input_mirrors_the_target() {
    let mut p = grounded_runner();
    p.move_axis = Vec2 { x: -1000, y: 0 };
    let mut v = Vel(Vec2 { x: 0, y: 0 });
    accelerate(&p, &mut v, 16);
    assert_eq!(v.0.x, -56_000);
}

#[test]
fn gravity_branches_on_the_velocity_sign() {
    let mut p = PlayerMovement::default();
    // Fast fall tuning: descent gravity four times the ascent gravity.
    p.jump_time_to_descent = 200;
    let r = p.derive_jump_constants();
    assert!(r.is_ok());
    let mut rising = Vel(Vec2 { x: 0, y: 600_000 });
    gravity(&p, &mut rising, 16);
    assert_eq!(rising.0.y, 576_000);
    let mut falling = Vel(Vec2 { x: 0, y: 0 });
    gravity(&p, &mut falling, 16);
    assert_eq!(falling.0.y, -96_000);
}
