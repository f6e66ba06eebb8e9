use platformer_core::player::{
    tick_timers, was_on_floor, Actor, CollisionContact, CoyoteTimer, JumpBuffer, PlayerMovement,
    TickInput, Vec2,
};
use platformer_core::timer::{Timer, TimerState};

fn idle_input() -> TickInput {
    TickInput {
        pressed_up: false,
        pressed_down: false,
        pressed_left: false,
        pressed_right: false,
        jump_just_pressed: false,
        jump_just_released: false,
    }
}

fn floor(actor_id: u64) -> Vec<CollisionContact> {
    vec![CollisionContact {
        actor_id,
        other_is_static: true,
        normal: Vec2 { x: 0, y: 1000 },
    }]
}

#[test]
fn one_grounded_running_tick_is_exact() {
    let mut a = Actor::spawn(1);
    let mut run_right = idle_input();
    run_right.pressed_right = true;
    let flip = a.tick(16, run_right, &floor(1));
    assert!(a.movement.on_floor);
    assert_eq!(a.movement.move_axis, Vec2 { x: 1000, y: 0 });
    // Gravity pulls even while grounded; the physics collaborator cancels
    // it against the floor when integrating.
    assert_eq!(a.velocity.0.y, -24_000);
    assert_eq!(a.velocity.0.x, 56_000);
    assert!(a.movement.looking_right);
    assert!(!flip);
}

#[test]
fn earlier_release_never_ends_higher() {
    // Two identical jumps; one releases two ticks earlier. At every
    // following tick the early hop's upward velocity stays at or below
    // the late hop's.
    let mut early = Actor::spawn(1);
    let mut late = Actor::spawn(1);
    let ground = floor(1);
    let mut press = idle_input();
    press.jump_just_pressed = true;
    let mut release = idle_input();
    release.jump_just_released = true;

    early.tick(16, idle_input(), &ground);
    late.tick(16, idle_input(), &ground);
    early.tick(16, press, &ground);
    late.tick(16, press, &ground);

    early.tick(16, release, &Vec::new());
    late.tick(16, idle_input(), &Vec::new());
    assert!(early.velocity.0.y <= late.velocity.0.y);
    early.tick(16, idle_input(), &Vec::new());
    late.tick(16, idle_input(), &Vec::new());
    assert!(early.velocity.0.y <= late.velocity.0.y);
    early.tick(16, idle_input(), &Vec::new());
    late.tick(16, release, &Vec::new());
    assert!(early.velocity.0.y <= late.velocity.0.y);
    early.tick(16, idle_input(), &Vec::new());
    late.tick(16, idle_input(), &Vec::new());
    assert!(early.velocity.0.y <= late.velocity.0.y);
}

#[test]
fn earlier_release_peaks_lower_in_integrated_height() {
    // Integrate each tick's velocity into a height, the way the physics
    // collaborator would, and compare the peaks of a short hop released
    // one tick after take-off against a full hold.
    let ground = floor(1);
    let mut press = idle_input();
    press.jump_just_pressed = true;
    let mut release = idle_input();
    release.jump_just_released = true;

    let mut peaks: Vec<i64> = Vec::new();
    for hold_ticks in [1u32, 60] {
        let mut a = Actor::spawn(1);
        a.tick(16, idle_input(), &ground);
        a.tick(16, press, &ground);
        let mut height: i64 = 0;
        let mut peak: i64 = 0;
        for t in 0..60 {
            let input = if t + 1 == hold_ticks { release } else { idle_input() };
            a.tick(16, input, &Vec::new());
            height += a.velocity.0.y * 16 / 1000;
            peak = peak.max(height);
        }
        peaks.push(peak);
    }
    assert!(peaks[0] < peaks[1]);
    // A short hop from 300 units/s at 1500 units/s^2 peaks near 30
    // units; a full jump from 600 units/s near 120.
    assert!(peaks[0] < 40_000);
    assert!(peaks[1] > 100_000);
}

#[test]
fn ascent_flag_clears_once_velocity_stops_rising() {
    let mut a = Actor::spawn(1);
    let ground = floor(1);
    let mut press = idle_input();
    press.jump_just_pressed = true;
    a.tick(16, idle_input(), &ground);
    a.tick(16, press, &ground);
    assert!(a.movement.is_jumping);
    // 600 units/s of ascent at 1500 units/s^2 of gravity: sign flips
    // within half a second.
    for _ in 0..30 {
        a.tick(16, idle_input(), &Vec::new());
    }
    assert!(a.velocity.0.y <= 0);
    assert!(!a.movement.is_jumping);
}

#[test]
fn snapshot_keeps_the_previous_grounded_state() {
    let mut p = PlayerMovement::default();
    p.on_floor = true;
    p.was_on_floor = false;
    was_on_floor(&mut p);
    assert!(p.was_on_floor);
    p.on_floor = false;
    was_on_floor(&mut p);
    assert!(!p.was_on_floor);
}

#[test]
fn both_grace_timers_advance_together() {
    let mut coyote = CoyoteTimer(Timer::new(100));
    let mut buffer = JumpBuffer(Timer::new(100));
    coyote.0.start();
    buffer.0.start();
    tick_timers(&mut coyote, &mut buffer, 30);
    assert!(matches!(coyote.0.state, TimerState::Running(70)));
    assert!(matches!(buffer.0.state, TimerState::Running(70)));
    tick_timers(&mut coyote, &mut buffer, 70);
    assert!(matches!(coyote.0.state, TimerState::Idle));
    assert!(matches!(buffer.0.state, TimerState::Idle));
}
