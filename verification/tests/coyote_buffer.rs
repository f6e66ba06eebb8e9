use platformer_core::player::{Actor, CollisionContact, TickInput, Vec2};
use platformer_core::timer::TimerState;

fn idle_input() -> TickInput {
    TickInput {
        pressed_up: false,
        pressed_down: false,
        pressed_left: false,
        pressed_right: false,
        jump_just_pressed: false,
        jump_just_released: false,
    }
}

fn jump_press() -> TickInput {
    TickInput {
        jump_just_pressed: true,
        ..idle_input()
    }
}

fn floor(actor_id: u64) -> Vec<CollisionContact> {
    vec![CollisionContact {
        actor_id,
        other_is_static: true,
        normal: Vec2 { x: 0, y: 1000 },
    }]
}

/// Ticks until the actor stands on the floor, then walks it off a ledge:
/// one more tick with no contacts, which arms the coyote window.
fn walk_off_ledge(a: &mut Actor) {
    a.tick(16, idle_input(), &floor(a.id));
    assert!(a.movement.on_floor);
    a.tick(16, idle_input(), &Vec::new());
    assert!(!a.movement.on_floor);
    assert!(a.movement.was_on_floor);
    assert!(matches!(a.coyote.0.state, TimerState::Running(100)));
}

#[test]
fn coyote_press_within_window_grants_full_jump() {
    let mut a = Actor::spawn(1);
    walk_off_ledge(&mut a);
    // 50 ms later, well inside the 100 ms window: the press succeeds as
    // if grounded.
    a.tick(50, jump_press(), &Vec::new());
    assert_eq!(a.velocity.0.y, 600_000);
    assert!(a.movement.is_jumping);
    assert!(matches!(a.coyote.0.state, TimerState::Idle));
}

#[test]
fn coyote_press_after_window_grants_nothing() {
    let mut a = Actor::spawn(1);
    walk_off_ledge(&mut a);
    // 110 ms later the 100 ms window has expired: no grant, the press is
    // queued in the jump buffer instead.
    a.tick(110, jump_press(), &Vec::new());
    assert!(a.velocity.0.y < 0);
    assert!(!a.movement.is_jumping);
    assert!(matches!(a.buffer.0.state, TimerState::Running(100)));
}

#[test]
fn jumping_off_the_ground_does_not_arm_coyote() {
    let mut a = Actor::spawn(1);
    a.tick(16, idle_input(), &floor(a.id));
    a.tick(16, jump_press(), &floor(a.id));
    assert_eq!(a.velocity.0.y, 600_000);
    // Now airborne after a jump: was_on_floor is true but is_jumping
    // blocks the coyote arm.
    a.tick(16, idle_input(), &Vec::new());
    assert!(matches!(a.coyote.0.state, TimerState::Idle));
}

#[test]
fn buffered_press_fires_exactly_once_on_landing() {
    let mut a = Actor::spawn(1);
    // Airborne with no coyote available: the press is buffered.
    a.tick(16, idle_input(), &Vec::new());
    a.tick(16, jump_press(), &Vec::new());
    assert!(a.velocity.0.y < 0);
    assert!(matches!(a.buffer.0.state, TimerState::Running(100)));
    // Landing 50 ms later, inside the 100 ms buffer window: the jump
    // fires at the landing tick and the buffer is consumed.
    a.tick(50, idle_input(), &floor(a.id));
    assert_eq!(a.velocity.0.y, 600_000);
    assert!(a.movement.is_jumping);
    assert!(matches!(a.buffer.0.state, TimerState::Idle));
    // Still grounded one tick later: no second grant, only gravity.
    a.tick(16, idle_input(), &floor(a.id));
    assert_eq!(a.velocity.0.y, 576_000);
}

#[test]
fn landing_after_buffer_window_grants_nothing() {
    let mut a = Actor::spawn(1);
    a.tick(16, idle_input(), &Vec::new());
    a.tick(16, jump_press(), &Vec::new());
    assert!(matches!(a.buffer.0.state, TimerState::Running(100)));
    // The buffer expires in the air.
    a.tick(120, idle_input(), &Vec::new());
    assert!(matches!(a.buffer.0.state, TimerState::Idle));
    // Landing afterwards: no grant.
    a.tick(16, idle_input(), &floor(a.id));
    assert!(a.velocity.0.y < 0);
    assert!(!a.movement.is_jumping);
}

#[test]
fn buffer_window_boundary_is_exclusive() {
    let mut a = Actor::spawn(1);
    a.tick(16, idle_input(), &Vec::new());
    a.tick(16, jump_press(), &Vec::new());
    // Exactly the window length elapses before landing: the countdown
    // reaches zero and the timer is idle, so nothing fires.
    a.tick(100, idle_input(), &floor(a.id));
    assert!(matches!(a.buffer.0.state, TimerState::Idle));
    assert!(a.velocity.0.y < 0);
}
