use platformer_core::player::{
    controller_input, Actor, CollisionContact, ConfigError, CoyoteTimer, JumpBuffer,
    PlayerMovement, TickInput, Vec2, Vel, COYOTE_WINDOW_MS, JUMP_BUFFER_WINDOW_MS,
};
use platformer_core::timer::{Timer, TimerState};

fn idle_input() -> TickInput {
    TickInput {
        pressed_up: false,
        pressed_down: false,
        pressed_left: false,
        pressed_right: false,
        jump_just_pressed: false,
        jump_just_released: false,
    }
}

fn floor_contact(actor_id: u64) -> CollisionContact {
    CollisionContact {
        actor_id,
        other_is_static: true,
        normal: Vec2 { x: 0, y: 1000 },
    }
}

#[test]
fn derived_constants_match_kinematics() {
    // jump_height = 120, jump_time_to_peak = 0.4  =>  jump_velocity = 600
    // min_jump_height = 60                        =>  min_jump_velocity = 300
    let a = Actor::spawn(1);
    assert_eq!(a.movement.jump_velocity, 600_000);
    assert_eq!(a.movement.min_jump_velocity, 300_000);
    assert_eq!(a.movement.jump_gravity, -1_500_000);
    assert_eq!(a.movement.fall_gravity, -1_500_000);
    assert_eq!(a.coyote.0.window, COYOTE_WINDOW_MS);
    assert_eq!(a.buffer.0.window, JUMP_BUFFER_WINDOW_MS);
}

#[test]
fn grounded_jump_press_sets_exact_velocity() {
    let mut a = Actor::spawn(1);
    let contacts = vec![floor_contact(1)];
    // Land first so the grounded state is established.
    a.tick(16, idle_input(), &contacts);
    assert!(a.movement.on_floor);
    let mut press = idle_input();
    press.jump_just_pressed = true;
    a.tick(16, press, &contacts);
    assert_eq!(a.velocity.0.y, 600_000);
    assert!(a.movement.is_jumping);
}

#[test]
fn release_clamps_to_min_jump_velocity() {
    let mut a = Actor::spawn(1);
    a.movement.on_floor = false;
    a.velocity = Vel(Vec2 { x: 0, y: 600_000 });
    let mut release = idle_input();
    release.jump_just_released = true;
    let mut coyote = CoyoteTimer(Timer::new(COYOTE_WINDOW_MS));
    let mut buffer = JumpBuffer(Timer::new(JUMP_BUFFER_WINDOW_MS));
    controller_input(
        release,
        &mut a.movement,
        &mut a.velocity,
        &mut coyote,
        &mut buffer,
    );
    assert_eq!(a.velocity.0.y, 300_000);
}

#[test]
fn release_below_min_jump_velocity_changes_nothing() {
    let mut a = Actor::spawn(1);
    a.velocity = Vel(Vec2 { x: 0, y: 250_000 });
    let mut release = idle_input();
    release.jump_just_released = true;
    let mut coyote = CoyoteTimer(Timer::new(COYOTE_WINDOW_MS));
    let mut buffer = JumpBuffer(Timer::new(JUMP_BUFFER_WINDOW_MS));
    controller_input(
        release,
        &mut a.movement,
        &mut a.velocity,
        &mut coyote,
        &mut buffer,
    );
    assert_eq!(a.velocity.0.y, 250_000);
}

#[test]
fn gravity_is_applied_before_the_grant_is_read() {
    // A fresh grant leaves the tick at exactly the jump velocity: gravity
    // integrated the previous value, not the newly granted one.
    let mut a = Actor::spawn(1);
    let contacts = vec![floor_contact(1)];
    a.tick(16, idle_input(), &contacts);
    let mut press = idle_input();
    press.jump_just_pressed = true;
    a.tick(16, press, &contacts);
    assert_eq!(a.velocity.0.y, 600_000);
    // The next tick's gravity then damps the ascent: 600 - 1500 * 0.016.
    a.tick(16, idle_input(), &Vec::new());
    assert_eq!(a.velocity.0.y, 576_000);
}

#[test]
fn zero_time_to_peak_is_rejected() {
    let mut m = PlayerMovement::default();
    m.jump_time_to_peak = 0;
    let before = m;
    let r = m.derive_jump_constants();
    assert_eq!(r, Err(ConfigError::NonPositiveJumpTimeToPeak));
    assert_eq!(m.jump_velocity, before.jump_velocity);
    assert_eq!(m.jump_gravity, before.jump_gravity);
}

#[test]
fn negative_time_to_descent_is_rejected() {
    let mut m = PlayerMovement::default();
    m.jump_time_to_descent = -1;
    let r = m.derive_jump_constants();
    assert_eq!(r, Err(ConfigError::NonPositiveJumpTimeToDescent));
    assert_eq!(m.fall_gravity, 0);
}

#[test]
fn asymmetric_fall_gravity_uses_descent_time() {
    let mut m = PlayerMovement::default();
    // Fast fall: half the descent time quadruples the descent gravity.
    m.jump_time_to_descent = 200;
    let r = m.derive_jump_constants();
    assert!(r.is_ok());
    assert_eq!(m.jump_gravity, -1_500_000);
    assert_eq!(m.fall_gravity, -6_000_000);
    assert_eq!(m.jump_velocity, 600_000);
}

#[test]
fn timer_state_starts_idle() {
    let a = Actor::spawn(9);
    assert!(matches!(a.coyote.0.state, TimerState::Idle));
    assert!(matches!(a.buffer.0.state, TimerState::Idle));
    assert_eq!(a.velocity.0.x, 0);
    assert_eq!(a.velocity.0.y, 0);
}
