//! The per-tick movement pipeline for a controllable actor.
//!
//! Each simulation tick runs six stages in a fixed order: snapshot the
//! previous grounded state, classify this tick's contacts, advance the
//! coyote and jump-buffer timers, integrate gravity, resolve jump input
//! (buffered jumps, fresh presses, coyote time, short hops), smooth the
//! horizontal velocity toward its target, and update the facing flag.
//! [`Actor::tick`] composes the stages; each stage is also a public
//! function of its own, specified exactly.
//!
//! Quantities are fixed-point thousandths: lengths in milli-units, times
//! in milliseconds, velocities in milli-units per second. An input axis
//! value of `1000` stands for a full deflection of `1.0`.

use vstd::prelude::*;
use crate::timer::{Timer, TimerState};
use crate::units::{mag, mul_div_scale, scaled, SCALE};

verus! {

/// A 2D vector in fixed-point thousandths.
#[derive(Clone, Copy, PartialEq, Eq, Structural, Debug)]
pub struct Vec2 {
    pub x: i64,
    pub y: i64,
}

/// The actor's velocity, in milli-units per second. Owned by the physics
/// collaborator; this core reads and rewrites it each tick.
#[derive(Clone, Copy, PartialEq, Eq, Structural, Debug)]
pub struct Vel(pub Vec2);

/// Grace window after walking off a ledge, in milliseconds.
pub const COYOTE_WINDOW_MS: u64 = 100;

/// Grace window for a jump pressed shortly before landing, in milliseconds.
pub const JUMP_BUFFER_WINDOW_MS: u64 = 100;

/// Largest elapsed time a single tick may integrate, in milliseconds.
pub const DT_LIMIT: u64 = 1000;

/// Caps on the tunable constants, so that every tick computation fits in
/// 64-bit arithmetic. All are far beyond any playable configuration.
pub const SPEED_LIMIT: i64 = 10_000_000_000;

/// Cap on `acceleration` and `deceleration` (in thousandths per second).
pub const ACCEL_LIMIT: i64 = 1_000_000;

/// Cap on `jump_height` and `min_jump_height` (in milli-units).
pub const HEIGHT_LIMIT: i64 = 10_000_000;

/// Cap on `jump_time_to_peak` and `jump_time_to_descent` (in milliseconds).
pub const TIME_LIMIT: i64 = 10_000;

/// Bound on the derived jump velocities: `2 * HEIGHT_LIMIT * SCALE`.
pub const JUMP_VEL_LIMIT: i64 = 20_000_000_000;

/// Bound on the magnitude of the derived gravities:
/// `2 * HEIGHT_LIMIT * SCALE * SCALE`.
pub const GRAVITY_LIMIT: i64 = 20_000_000_000_000;

/// Bound on the horizontal velocity a tick may start from.
pub const VEL_X_LIMIT: i64 = 1_000_000_000_000;

/// Bound on the vertical velocity a tick may start from.
pub const VEL_Y_LIMIT: i64 = 1_000_000_000_000_000;

/// A contact normal whose dot with the up axis exceeds this marks ground
/// (`0.7` in fixed point).
pub const FLOOR_NORMAL_MIN: i64 = 700;

/// Horizontal input at or beyond this magnitude flips the facing
/// (`0.5` in fixed point); smaller input keeps the previous facing.
pub const FACING_THRESHOLD: i64 = 500;

/// Horizontal velocities closer to zero than this snap to exactly zero
/// once input stops (`0.01` units per second in fixed point).
pub const SNAP_EPSILON: i64 = 10;

/// Movement state and tuning of one controllable actor.
#[derive(Clone, Copy, Debug)]
pub struct PlayerMovement {
    /// Top horizontal speed, in milli-units per second.
    pub speed: i64,
    /// Normal of the last wall touched this tick, if any.
    pub on_wall: Option<Vec2>,
    /// Grounded this tick.
    pub on_floor: bool,
    /// Grounded state of the previous tick, snapshotted before contacts
    /// are reclassified.
    pub was_on_floor: bool,
    /// This tick's raw input direction; recomputed every tick.
    pub move_axis: Vec2,
    /// Facing flag for the rendering collaborator.
    pub looking_right: bool,
    /// Smoothing rate toward the target speed while input is held.
    pub acceleration: i64,
    /// Smoothing rate toward zero while input is released.
    pub deceleration: i64,
    /// Damping of horizontal acceleration while airborne, in `[0, SCALE]`.
    pub air_control: i64,
    /// True from a jump grant until vertical velocity stops being positive.
    pub is_jumping: bool,
    /// Desired apex height of a full jump, in milli-units.
    pub jump_height: i64,
    /// Apex height of the shortest possible hop, in milli-units.
    pub min_jump_height: i64,
    /// Time from take-off to apex, in milliseconds.
    pub jump_time_to_peak: i64,
    /// Time from apex back to the ground, in milliseconds.
    pub jump_time_to_descent: i64,
    /// Derived: upward velocity granted by a jump.
    pub jump_velocity: i64,
    /// Derived: the velocity a released jump is clamped down to.
    pub min_jump_velocity: i64,
    /// Derived: gravity while ascending (non-positive).
    pub jump_gravity: i64,
    /// Derived: gravity while descending (non-positive).
    pub fall_gravity: i64,
}

/// Why an actor configuration was rejected at construction.
#[derive(Clone, Copy, PartialEq, Eq, Structural, Debug)]
pub enum ConfigError {
    /// `jump_time_to_peak` was zero or negative.
    NonPositiveJumpTimeToPeak,
    /// `jump_time_to_descent` was zero or negative.
    NonPositiveJumpTimeToDescent,
}

/// The coyote-time countdown of one actor.
#[derive(Clone, Copy, Debug)]
pub struct CoyoteTimer(pub Timer);

/// The jump-buffer countdown of one actor.
#[derive(Clone, Copy, Debug)]
pub struct JumpBuffer(pub Timer);

/// The logical input actions of one tick.
#[derive(Clone, Copy, Debug)]
pub struct TickInput {
    pub pressed_up: bool,
    pub pressed_down: bool,
    pub pressed_left: bool,
    pub pressed_right: bool,
    pub jump_just_pressed: bool,
    pub jump_just_released: bool,
}

/// One collision event against this tick's geometry, as the physics
/// collaborator reports it.
#[derive(Clone, Copy, Debug)]
pub struct CollisionContact {
    /// The actor the contact belongs to; events naming an unknown actor
    /// are ignored.
    pub actor_id: u64,
    /// Whether the other body is static geometry; only those count.
    pub other_is_static: bool,
    /// Unit normal pointing away from the touched surface, in fixed point.
    pub normal: Vec2,
}

/// The derived jump velocity: `2 * height / time_to_peak`, in fixed point.
pub open spec fn jump_velocity_formula(height: int, time_to_peak: int) -> int {
    (2 * height * (SCALE as int)) / time_to_peak
}

/// The derived gravity: `-2 * height / time^2`, in fixed point.
pub open spec fn gravity_formula(height: int, time: int) -> int {
    -((2 * height * (SCALE as int) * (SCALE as int)) / (time * time))
}

impl PlayerMovement {
    /// The tunables sit inside the caps that keep tick arithmetic in
    /// 64-bit range. `air_control` is a factor in `[0, 1]` in fixed point.
    pub open spec fn tunables_ok(self) -> bool {
        &&& 0 <= self.speed <= SPEED_LIMIT
        &&& 0 <= self.acceleration <= ACCEL_LIMIT
        &&& 0 <= self.deceleration <= ACCEL_LIMIT
        &&& 0 <= self.air_control <= SCALE
        &&& 0 <= self.jump_height <= HEIGHT_LIMIT
        &&& 0 <= self.min_jump_height <= HEIGHT_LIMIT
        &&& self.jump_time_to_peak <= TIME_LIMIT
        &&& self.jump_time_to_descent <= TIME_LIMIT
    }

    /// The derived constants sit inside their bounds: upward jump
    /// velocities, non-positive gravities.
    pub open spec fn derived_bounded(self) -> bool {
        &&& 0 <= self.jump_velocity <= JUMP_VEL_LIMIT
        &&& 0 <= self.min_jump_velocity <= JUMP_VEL_LIMIT
        &&& -GRAVITY_LIMIT <= self.jump_gravity <= 0
        &&& -GRAVITY_LIMIT <= self.fall_gravity <= 0
    }

    /// The derived constants agree with the jump-kinematics formulas.
    pub open spec fn derived_ok(self) -> bool {
        &&& self.jump_velocity == jump_velocity_formula(
            self.jump_height as int,
            self.jump_time_to_peak as int,
        )
        &&& self.min_jump_velocity == jump_velocity_formula(
            self.min_jump_height as int,
            self.jump_time_to_peak as int,
        )
        &&& self.jump_gravity == gravity_formula(
            self.jump_height as int,
            self.jump_time_to_peak as int,
        )
        &&& self.fall_gravity == gravity_formula(
            self.jump_height as int,
            self.jump_time_to_descent as int,
        )
    }

    /// Each input-axis component is a full deflection at most.
    pub open spec fn axis_ok(self) -> bool {
        &&& -SCALE <= self.move_axis.x <= SCALE
        &&& -SCALE <= self.move_axis.y <= SCALE
    }

    /// The spawn-time tuning: derived constants still zero, to be filled
    /// in by [`PlayerMovement::derive_jump_constants`].
    pub open spec fn spec_default() -> PlayerMovement {
        (PlayerMovement {
            speed: 350_000,
            on_wall: None,
            on_floor: false,
            was_on_floor: false,
            move_axis: (Vec2 { x: 0, y: 0 }),
            looking_right: true,
            acceleration: 10_000,
            deceleration: 12_000,
            air_control: 900,
            is_jumping: false,
            jump_height: 120_000,
            min_jump_height: 60_000,
            jump_time_to_peak: 400,
            jump_time_to_descent: 400,
            jump_velocity: 0,
            min_jump_velocity: 0,
            jump_gravity: 0,
            fall_gravity: 0,
        })
    }

    /// Validate the jump timings and fill in the derived constants from
    /// the jump-kinematics equations. Rejects a zero or negative
    /// time-to-peak or time-to-descent; on rejection the state is left
    /// untouched.
    pub fn derive_jump_constants(&mut self) -> (r: Result<(), ConfigError>)
        requires
            old(self).tunables_ok(),
        ensures
            r is Ok <==> old(self).jump_time_to_peak > 0 && old(self).jump_time_to_descent > 0,
            r is Ok ==> *final(self) == (PlayerMovement {
                jump_velocity: jump_velocity_formula(
                    old(self).jump_height as int,
                    old(self).jump_time_to_peak as int,
                ) as i64,
                min_jump_velocity: jump_velocity_formula(
                    old(self).min_jump_height as int,
                    old(self).jump_time_to_peak as int,
                ) as i64,
                jump_gravity: gravity_formula(
                    old(self).jump_height as int,
                    old(self).jump_time_to_peak as int,
                ) as i64,
                fall_gravity: gravity_formula(
                    old(self).jump_height as int,
                    old(self).jump_time_to_descent as int,
                ) as i64,
                ..*old(self)
            }),
            r is Ok ==> final(self).derived_ok() && final(self).derived_bounded(),
            r is Err ==> *final(self) == *old(self),
            r matches Err(e) ==> e == (if old(self).jump_time_to_peak <= 0 {
                ConfigError::NonPositiveJumpTimeToPeak
            } else {
                ConfigError::NonPositiveJumpTimeToDescent
            }),
    {
        if self.jump_time_to_peak <= 0 {
            return Err(ConfigError::NonPositiveJumpTimeToPeak);
        }
        if self.jump_time_to_descent <= 0 {
            return Err(ConfigError::NonPositiveJumpTimeToDescent);
        }
        let h: u64 = self.jump_height as u64;
        let mh: u64 = self.min_jump_height as u64;
        let tp: u64 = self.jump_time_to_peak as u64;
        let td: u64 = self.jump_time_to_descent as u64;
        proof {
            assert(tp * tp <= 100_000_000) by (nonlinear_arith)
                requires 0 < tp <= 10_000,
            ;
            assert(td * td <= 100_000_000) by (nonlinear_arith)
                requires 0 < td <= 10_000,
            ;
            assert(tp * tp >= 1) by (nonlinear_arith)
                requires tp >= 1,
            ;
            assert(td * td >= 1) by (nonlinear_arith)
                requires td >= 1,
            ;
            crate::units::lemma_div_le_self(2 * (h as int) * 1000, tp as int);
            crate::units::lemma_div_le_self(2 * (mh as int) * 1000, tp as int);
            crate::units::lemma_div_le_self(2 * (h as int) * 1000 * 1000, (tp * tp) as int);
            crate::units::lemma_div_le_self(2 * (h as int) * 1000 * 1000, (td * td) as int);
        }
        let jv: u64 = 2 * h * 1000 / tp;
        let mjv: u64 = 2 * mh * 1000 / tp;
        let jg: u64 = 2 * h * 1000 * 1000 / (tp * tp);
        let fg: u64 = 2 * h * 1000 * 1000 / (td * td);
        self.jump_velocity = jv as i64;
        self.min_jump_velocity = mjv as i64;
        self.jump_gravity = -(jg as i64);
        self.fall_gravity = -(fg as i64);
        Ok(())
    }
}

impl Default for PlayerMovement {
    /// The spawn-time tuning of the original actor.
    fn default() -> (d: Self)
        ensures
            d == PlayerMovement::spec_default(),
            d.tunables_ok(),
            d.derived_bounded(),
            d.axis_ok(),
    {
        PlayerMovement {
            speed: 350_000,
            on_wall: None,
            on_floor: false,
            was_on_floor: false,
            move_axis: Vec2 { x: 0, y: 0 },
            looking_right: true,
            acceleration: 10_000,
            deceleration: 12_000,
            air_control: 900,
            is_jumping: false,
            jump_height: 120_000,
            min_jump_height: 60_000,
            jump_time_to_peak: 400,
            jump_time_to_descent: 400,
            jump_velocity: 0,
            min_jump_velocity: 0,
            jump_gravity: 0,
            fall_gravity: 0,
        }
    }
}

/// Snapshot the grounded state of the previous tick, before contacts are
/// reclassified.
pub fn was_on_floor(player: &mut PlayerMovement)
    ensures
        *final(player) == (PlayerMovement { was_on_floor: old(player).on_floor, ..*old(player) }),
{
    player.was_on_floor = player.on_floor;
}

/// The facing after one tick: flipped only when the horizontal input
/// magnitude reaches the hysteresis threshold.
pub open spec fn spec_facing_after(looking_right: bool, axis_x: int) -> bool {
    if axis_x >= FACING_THRESHOLD {
        true
    } else if axis_x <= -FACING_THRESHOLD {
        false
    } else {
        looking_right
    }
}

/// Update the facing flag from the horizontal input, with hysteresis.
/// Returns the horizontal-mirror flag for the rendering collaborator.
pub fn look_at(player: &mut PlayerMovement) -> (flip_x: bool)
    ensures
        *final(player) == (PlayerMovement {
            looking_right: spec_facing_after(
                old(player).looking_right,
                old(player).move_axis.x as int,
            ),
            ..*old(player)
        }),
        flip_x == !final(player).looking_right,
{
    if player.move_axis.x >= FACING_THRESHOLD {
        player.looking_right = true;
    } else if player.move_axis.x <= -FACING_THRESHOLD {
        player.looking_right = false;
    }
    !player.looking_right
}

/// A contact that the classifier considers at all: against static
/// geometry, and naming this actor.
pub open spec fn contact_qualifies(c: CollisionContact, actor: u64) -> bool {
    c.other_is_static && c.actor_id == actor
}

/// A qualifying contact whose normal points upward enough to count as
/// ground. The normal is a unit vector in fixed point, so its dot with
/// the up axis is its `y` component.
pub open spec fn floor_contact(c: CollisionContact, actor: u64) -> bool {
    contact_qualifies(c, actor) && c.normal.y > FLOOR_NORMAL_MIN
}

/// A qualifying contact whose normal is close enough to horizontal to
/// count as a wall.
pub open spec fn wall_contact(c: CollisionContact, actor: u64) -> bool {
    contact_qualifies(c, actor) && -FLOOR_NORMAL_MIN <= c.normal.y <= FLOOR_NORMAL_MIN
}

/// Grounded iff some contact of the tick is a floor contact.
pub open spec fn floor_classified(contacts: Seq<CollisionContact>, actor: u64) -> bool {
    exists|i: int| 0 <= i < contacts.len() && floor_contact(contacts[i], actor)
}

/// The wall state after the tick: the normal of the last wall contact,
/// if any. Later wall contacts overwrite earlier ones; floor contacts
/// leave the wall state alone.
pub open spec fn wall_classified(contacts: Seq<CollisionContact>, actor: u64) -> Option<Vec2>
    decreases contacts.len(),
{
    if contacts.len() == 0 {
        None
    } else if wall_contact(contacts.last(), actor) {
        Some(contacts.last().normal)
    } else {
        wall_classified(contacts.drop_last(), actor)
    }
}

/// Classify this tick's contacts into grounded / wall-touching /
/// airborne. An empty contact list leaves the actor fully airborne.
#[verifier::loop_isolation(false)]
pub fn controller_on_stuff(player: &mut PlayerMovement, actor: u64, contacts: &Vec<CollisionContact>)
    ensures
        *final(player) == (PlayerMovement {
            on_floor: floor_classified(contacts@, actor),
            on_wall: wall_classified(contacts@, actor),
            ..*old(player)
        }),
{
    player.on_floor = false;
    player.on_wall = None;
    let n: usize = contacts.len();
    let mut i: usize = 0;
    while i < n
        invariant
            i <= n,
            player.on_floor == floor_classified(contacts@.take(i as int), actor),
            player.on_wall == wall_classified(contacts@.take(i as int), actor),
            *player == (PlayerMovement {
                on_floor: player.on_floor,
                on_wall: player.on_wall,
                ..*old(player)
            }),
        decreases n - i,
    {
        let c = contacts[i];
        if c.other_is_static && c.actor_id == actor {
            let ny: i64 = c.normal.y;
            if ny > FLOOR_NORMAL_MIN {
                player.on_floor = true;
            } else if -FLOOR_NORMAL_MIN <= ny && ny <= FLOOR_NORMAL_MIN {
                player.on_wall = Some(c.normal);
            }
        }
        proof {
            let s = contacts@;
            assert(s.take(i + 1).drop_last() =~= s.take(i as int));
            assert(s.take(i + 1).last() == s[i as int]);
            if player.on_floor {
                if floor_contact(s[i as int], actor) {
                    assert(floor_contact(s.take(i + 1)[i as int], actor));
                }
                assert(floor_classified(s.take(i + 1), actor));
            } else {
                assert forall|j: int| 0 <= j < i + 1 implies !floor_contact(
                    #[trigger] s.take(i + 1)[j],
                    actor,
                ) by {
                    if j < i {
                        assert(!floor_contact(s.take(i as int)[j], actor));
                    }
                }
            }
        }
        i = i + 1;
    }
    proof {
        assert(contacts@.take(n as int) =~= contacts@);
    }
}

/// Advance both grace-window timers by the elapsed milliseconds.
pub fn tick_timers(coyote: &mut CoyoteTimer, buffer: &mut JumpBuffer, dt: u64)
    ensures
        final(coyote).0 == old(coyote).0.spec_ticked(dt),
        final(buffer).0 == old(buffer).0.spec_ticked(dt),
{
    coyote.0.tick(dt);
    buffer.0.tick(dt);
}

/// The vertical velocity after one gravity step: the ascent-tuned
/// gravity applies while rising, the descent-tuned gravity otherwise.
/// Both gravities are non-positive, so the step never raises it.
pub open spec fn grav_vy(p: PlayerMovement, vy: int, dt: int) -> int {
    if vy > 0 {
        vy + scaled(p.jump_gravity as int, dt)
    } else {
        vy + scaled(p.fall_gravity as int, dt)
    }
}

/// Integrate one tick of asymmetric gravity into the vertical velocity.
pub fn gravity(player: &PlayerMovement, velocity: &mut Vel, dt: u64)
    requires
        player.derived_bounded(),
        dt <= DT_LIMIT,
        -VEL_Y_LIMIT <= old(velocity).0.y <= VEL_Y_LIMIT,
    ensures
        final(velocity).0.y == grav_vy(*player, old(velocity).0.y as int, dt as int),
        final(velocity).0.x == old(velocity).0.x,
{
    let g: i64 = if velocity.0.y > 0 {
        player.jump_gravity
    } else {
        player.fall_gravity
    };
    proof {
        let m = mag(g as int);
        assert(m * (dt as int) <= 20_000_000_000_000 * 1000) by (nonlinear_arith)
            requires
                0 <= m <= 20_000_000_000_000,
                0 <= dt <= 1000,
        ;
        crate::units::lemma_div_le_self(m * (dt as int), SCALE as int);
    }
    let step: i64 = mul_div_scale(g, dt as i64);
    velocity.0.y = velocity.0.y + step;
}

/// The target horizontal velocity: the input axis times the top speed.
pub open spec fn target_vx(p: PlayerMovement) -> int {
    scaled(p.move_axis.x as int, p.speed as int)
}

/// The smoothing rate of this tick: `acceleration` while input is held,
/// `deceleration` otherwise, damped by `air_control` while airborne.
pub open spec fn accel_rate(p: PlayerMovement) -> int {
    let base: int = if p.move_axis.x != 0 {
        p.acceleration as int
    } else {
        p.deceleration as int
    };
    if p.on_floor {
        base
    } else {
        scaled(base, p.air_control as int)
    }
}

/// The smoothing factor of this tick, in fixed point: rate times the
/// elapsed seconds.
pub open spec fn lerp_factor(p: PlayerMovement, dt: int) -> int {
    scaled(accel_rate(p), dt)
}

/// One step of exponential smoothing: move `v` toward `t` by the
/// fixed-point fraction `k` of the distance.
pub open spec fn lerp_toward(v: int, t: int, k: int) -> int {
    v + scaled(t - v, k)
}

/// The horizontal velocity after one tick: smoothed toward the target,
/// then snapped to exactly zero once input has stopped and the remaining
/// creep is below the epsilon.
pub open spec fn accel_vx(p: PlayerMovement, vx: int, dt: int) -> int {
    let v1: int = lerp_toward(vx, target_vx(p), lerp_factor(p, dt));
    if p.move_axis.x == 0 && -SNAP_EPSILON < v1 < SNAP_EPSILON {
        0
    } else {
        v1
    }
}

/// Smooth the horizontal velocity toward the input-selected target, with
/// reduced control in the air, and snap residual creep to zero.
pub fn accelerate(player: &PlayerMovement, velocity: &mut Vel, dt: u64)
    requires
        player.tunables_ok(),
        player.axis_ok(),
        dt <= DT_LIMIT,
        -VEL_X_LIMIT <= old(velocity).0.x <= VEL_X_LIMIT,
    ensures
        final(velocity).0.x == accel_vx(*player, old(velocity).0.x as int, dt as int),
        final(velocity).0.y == old(velocity).0.y,
{
    proof {
        let ax = mag(player.move_axis.x as int);
        assert(ax * (player.speed as int) <= 1000 * 10_000_000_000) by (nonlinear_arith)
            requires
                0 <= ax <= 1000,
                0 <= player.speed <= 10_000_000_000,
        ;
        crate::units::lemma_div_le_self(ax * (player.speed as int), SCALE as int);
    }
    let target: i64 = mul_div_scale(player.move_axis.x, player.speed);
    let base: i64 = if player.move_axis.x != 0 {
        player.acceleration
    } else {
        player.deceleration
    };
    proof {
        assert((base as int) * (player.air_control as int) <= 1_000_000 * 1000)
            by (nonlinear_arith)
            requires
                0 <= base <= 1_000_000,
                0 <= player.air_control <= 1000,
        ;
        crate::units::lemma_div_le_self((base as int) * (player.air_control as int), SCALE as int);
    }
    let rate: i64 = if player.on_floor {
        base
    } else {
        mul_div_scale(base, player.air_control)
    };
    proof {
        assert((rate as int) * (dt as int) <= 1_000_000 * 1000) by (nonlinear_arith)
            requires
                0 <= rate <= 1_000_000,
                0 <= dt <= 1000,
        ;
        crate::units::lemma_div_le_self((rate as int) * (dt as int), SCALE as int);
    }
    let k: i64 = mul_div_scale(rate, dt as i64);
    let diff: i64 = target - velocity.0.x;
    proof {
        let d = mag(diff as int);
        assert(d * (k as int) <= 1_010_000_000_000 * 1_000_000) by (nonlinear_arith)
            requires
                0 <= d <= 1_010_000_000_000,
                0 <= k <= 1_000_000,
        ;
        crate::units::lemma_div_le_self(d * (k as int), SCALE as int);
    }
    let step: i64 = mul_div_scale(diff, k);
    velocity.0.x = velocity.0.x + step;
    if player.move_axis.x == 0 {
        if -SNAP_EPSILON < velocity.0.x && velocity.0.x < SNAP_EPSILON {
            velocity.0.x = 0;
        }
    }
}

/// The input direction of this tick: each held directional action
/// contributes a full deflection on its axis; opposite actions cancel.
/// Diagonal input is deliberately not normalized.
pub open spec fn axis_of(i: TickInput) -> Vec2 {
    (Vec2 {
        x: if i.pressed_right == i.pressed_left {
            0
        } else if i.pressed_right {
            1000
        } else {
            (-1000) as i64
        },
        y: if i.pressed_up == i.pressed_down {
            0
        } else if i.pressed_up {
            1000
        } else {
            (-1000) as i64
        },
    })
}

/// A buffered jump fires: the actor just landed while the jump buffer
/// still runs.
pub open spec fn buffer_grant(p: PlayerMovement, buffer: Timer) -> bool {
    p.on_floor && buffer.spec_available()
}

/// A fresh jump press fires: pressed this tick while grounded, or
/// airborne with the coyote window still open.
pub open spec fn press_grant(i: TickInput, p: PlayerMovement, coyote: Timer) -> bool {
    i.jump_just_pressed && (p.on_floor || coyote.spec_available())
}

/// A fresh press that can fire nothing is queued instead: the jump
/// buffer starts its window.
pub open spec fn buffer_starts(i: TickInput, p: PlayerMovement, coyote: Timer) -> bool {
    i.jump_just_pressed && !p.on_floor && !coyote.spec_available()
}

/// Some jump was granted this tick, by the buffer or by a fresh press.
pub open spec fn granted(i: TickInput, p: PlayerMovement, coyote: Timer, buffer: Timer) -> bool {
    buffer_grant(p, buffer) || press_grant(i, p, coyote)
}

/// The vertical velocity after the grant step: the full jump velocity if
/// any jump fired, unchanged otherwise.
pub open spec fn vy_after_grant(
    i: TickInput,
    p: PlayerMovement,
    coyote: Timer,
    buffer: Timer,
    vy: int,
) -> int {
    if granted(i, p, coyote, buffer) {
        p.jump_velocity as int
    } else {
        vy
    }
}

/// The ascent flag after the resolver: set by a grant, carried while the
/// post-grant vertical velocity is still positive, cleared otherwise.
pub open spec fn jumping_after(
    i: TickInput,
    p: PlayerMovement,
    coyote: Timer,
    buffer: Timer,
    vy: int,
) -> bool {
    (p.is_jumping || granted(i, p, coyote, buffer)) && vy_after_grant(i, p, coyote, buffer, vy) > 0
}

/// The short-hop clamp: a vertical velocity still above the short-hop
/// velocity is cut down to it; anything else passes through.
pub open spec fn short_hop_clamp(p: PlayerMovement, vy: int) -> int {
    if vy > p.min_jump_velocity {
        p.min_jump_velocity as int
    } else {
        vy
    }
}

/// The vertical velocity after the whole resolver: the grant step, then
/// the short-hop clamp on a release.
pub open spec fn vy_after_controller(
    i: TickInput,
    p: PlayerMovement,
    coyote: Timer,
    buffer: Timer,
    vy: int,
) -> int {
    let v1: int = vy_after_grant(i, p, coyote, buffer, vy);
    if i.jump_just_released {
        short_hop_clamp(p, v1)
    } else {
        v1
    }
}

/// The coyote window is armed exactly when the actor is airborne now,
/// was grounded last tick, and is not rising from a jump — walking off a
/// ledge, not jumping off the ground.
pub open spec fn coyote_armed(
    i: TickInput,
    p: PlayerMovement,
    coyote: Timer,
    buffer: Timer,
    vy: int,
) -> bool {
    !p.on_floor && p.was_on_floor && !jumping_after(i, p, coyote, buffer, vy)
}

/// The coyote timer after the resolver: restarted when armed, consumed
/// by a fresh-press grant, untouched otherwise.
pub open spec fn coyote_after(
    i: TickInput,
    p: PlayerMovement,
    coyote: Timer,
    buffer: Timer,
    vy: int,
) -> Timer {
    if coyote_armed(i, p, coyote, buffer, vy) {
        coyote.spec_started()
    } else if press_grant(i, p, coyote) {
        coyote.spec_consumed()
    } else {
        coyote
    }
}

/// The jump buffer after the resolver: consumed by a buffered grant,
/// started by a press that found nothing to fire, untouched otherwise.
pub open spec fn buffer_after(
    i: TickInput,
    p: PlayerMovement,
    coyote: Timer,
    buffer: Timer,
) -> Timer {
    if buffer_grant(p, buffer) {
        buffer.spec_consumed()
    } else if buffer_starts(i, p, coyote) {
        buffer.spec_started()
    } else {
        buffer
    }
}

/// Resolve this tick's input: recompute the move axis, fire a buffered
/// jump on landing, fire a fresh press (grounded or within coyote time)
/// or queue it in the buffer, maintain the ascent flag, clamp a released
/// jump down to the short-hop velocity, and arm coyote time when the
/// actor has just walked off a ledge.
pub fn controller_input(
    input: TickInput,
    player: &mut PlayerMovement,
    velocity: &mut Vel,
    coyote: &mut CoyoteTimer,
    buffer: &mut JumpBuffer,
)
    ensures
        *final(player) == (PlayerMovement {
            move_axis: axis_of(input),
            is_jumping: jumping_after(
                input,
                *old(player),
                old(coyote).0,
                old(buffer).0,
                old(velocity).0.y as int,
            ),
            ..*old(player)
        }),
        final(velocity).0.y == vy_after_controller(
            input,
            *old(player),
            old(coyote).0,
            old(buffer).0,
            old(velocity).0.y as int,
        ),
        final(velocity).0.x == old(velocity).0.x,
        final(coyote).0 == coyote_after(
            input,
            *old(player),
            old(coyote).0,
            old(buffer).0,
            old(velocity).0.y as int,
        ),
        final(buffer).0 == buffer_after(input, *old(player), old(coyote).0, old(buffer).0),
{
    let mut ax: i64 = 0;
    let mut ay: i64 = 0;
    if input.pressed_up {
        ay = ay + SCALE;
    }
    if input.pressed_down {
        ay = ay - SCALE;
    }
    if input.pressed_right {
        ax = ax + SCALE;
    }
    if input.pressed_left {
        ax = ax - SCALE;
    }
    player.move_axis = Vec2 { x: ax, y: ay };

    if player.on_floor && buffer.0.available() {
        buffer.0.consume();
        velocity.0.y = player.jump_velocity;
        player.is_jumping = true;
    }

    if input.jump_just_pressed {
        if player.on_floor || coyote.0.available() {
            coyote.0.consume();
            velocity.0.y = player.jump_velocity;
            player.is_jumping = true;
        } else {
            buffer.0.start();
        }
    }

    if player.is_jumping && velocity.0.y <= 0 {
        player.is_jumping = false;
    }

    if input.jump_just_released && velocity.0.y > player.min_jump_velocity {
        velocity.0.y = player.min_jump_velocity;
    }

    if !player.on_floor && player.was_on_floor && !player.is_jumping {
        coyote.0.start();
    }
}

/// One controllable actor: movement state, velocity, and the two grace
/// timers, processed as a unit each tick.
#[derive(Clone, Copy, Debug)]
pub struct Actor {
    /// Identity that collision contacts are matched against.
    pub id: u64,
    pub movement: PlayerMovement,
    pub velocity: Vel,
    pub coyote: CoyoteTimer,
    pub buffer: JumpBuffer,
}

/// The whole tick as one function of the previous state: snapshot, contact
/// classification, timer advance, gravity, jump resolution, horizontal
/// smoothing, facing update — in that order. Gravity integrates before the
/// jump resolver runs, so a newly granted jump velocity is never damped by
/// the same tick's gravity step.
pub open spec fn tick_spec(a: Actor, dt: u64, i: TickInput, cs: Seq<CollisionContact>) -> Actor {
    let m1 = (PlayerMovement { was_on_floor: a.movement.on_floor, ..a.movement });
    let m2 = (PlayerMovement {
        on_floor: floor_classified(cs, a.id),
        on_wall: wall_classified(cs, a.id),
        ..m1
    });
    let c1 = a.coyote.0.spec_ticked(dt);
    let b1 = a.buffer.0.spec_ticked(dt);
    let vy1: int = grav_vy(m2, a.velocity.0.y as int, dt as int);
    let m3 = (PlayerMovement {
        move_axis: axis_of(i),
        is_jumping: jumping_after(i, m2, c1, b1, vy1),
        ..m2
    });
    let vy2: int = vy_after_controller(i, m2, c1, b1, vy1);
    let c2 = coyote_after(i, m2, c1, b1, vy1);
    let b2 = buffer_after(i, m2, c1, b1);
    let vx2: int = accel_vx(m3, a.velocity.0.x as int, dt as int);
    let m4 = (PlayerMovement {
        looking_right: spec_facing_after(m3.looking_right, m3.move_axis.x as int),
        ..m3
    });
    (Actor {
        id: a.id,
        movement: m4,
        velocity: (Vel(Vec2 { x: vx2 as i64, y: vy2 as i64 })),
        coyote: (CoyoteTimer(c2)),
        buffer: (JumpBuffer(b2)),
    })
}

impl Actor {
    /// A freshly spawned actor with the default tuning, its derived jump
    /// constants filled in, zero velocity, and both grace timers idle.
    pub fn spawn(id: u64) -> (a: Actor)
        ensures
            a.id == id,
            a.movement == (PlayerMovement {
                jump_velocity: 600_000,
                min_jump_velocity: 300_000,
                jump_gravity: (-1_500_000) as i64,
                fall_gravity: (-1_500_000) as i64,
                ..PlayerMovement::spec_default()
            }),
            a.movement.tunables_ok(),
            a.movement.derived_bounded(),
            a.movement.derived_ok(),
            a.velocity == (Vel(Vec2 { x: 0, y: 0 })),
            a.coyote.0 == (Timer { window: COYOTE_WINDOW_MS, state: TimerState::Idle }),
            a.buffer.0 == (Timer { window: JUMP_BUFFER_WINDOW_MS, state: TimerState::Idle }),
    {
        let mut movement = PlayerMovement::default();
        let derived = movement.derive_jump_constants();
        proof {
            assert(derived is Ok);
        }
        Actor {
            id,
            movement,
            velocity: Vel(Vec2 { x: 0, y: 0 }),
            coyote: CoyoteTimer(Timer::new(COYOTE_WINDOW_MS)),
            buffer: JumpBuffer(Timer::new(JUMP_BUFFER_WINDOW_MS)),
        }
    }

    /// Run one simulation tick: consume the elapsed milliseconds, this
    /// tick's input actions, and this tick's collision contacts; update
    /// velocity, facing, and the grace timers. Returns the
    /// horizontal-mirror flag for the rendering collaborator.
    pub fn tick(&mut self, dt: u64, input: TickInput, contacts: &Vec<CollisionContact>) -> (flip_x:
        bool)
        requires
            old(self).movement.tunables_ok(),
            old(self).movement.derived_bounded(),
            dt <= DT_LIMIT,
            -VEL_X_LIMIT <= old(self).velocity.0.x <= VEL_X_LIMIT,
            -VEL_Y_LIMIT <= old(self).velocity.0.y <= VEL_Y_LIMIT,
        ensures
            *final(self) == tick_spec(*old(self), dt, input, contacts@),
            flip_x == !final(self).movement.looking_right,
    {
        was_on_floor(&mut self.movement);
        controller_on_stuff(&mut self.movement, self.id, contacts);
        tick_timers(&mut self.coyote, &mut self.buffer, dt);
        gravity(&self.movement, &mut self.velocity, dt);
        controller_input(input, &mut self.movement, &mut self.velocity, &mut self.coyote,
            &mut self.buffer);
        accelerate(&self.movement, &mut self.velocity, dt);
        look_at(&mut self.movement)
    }
}

} // verus!
