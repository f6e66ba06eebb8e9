//! Laws of the movement core, stated over the same spec functions the
//! executable contracts use and proved once for all inputs: facing
//! hysteresis, short-hop monotonicity, the coyote and jump-buffer
//! windows, single jump grants, and horizontal-velocity convergence.

use vstd::prelude::*;
use crate::player::{
    accel_rate, accel_vx, buffer_after, buffer_grant, coyote_after, coyote_armed, grav_vy, granted,
    jumping_after, lerp_factor, lerp_toward, press_grant, short_hop_clamp, spec_facing_after,
    target_vx, vy_after_controller, vy_after_grant, PlayerMovement, TickInput, FACING_THRESHOLD,
    SNAP_EPSILON,
};
use crate::timer::{Timer, TimerState};
use crate::units::{
    lemma_scaled_monotone, lemma_scaled_nonpos, lemma_scaled_progress, lemma_scaled_within,
    lemma_scaled_within_neg, mag, scaled, SCALE,
};

verus! {

/// The facing flag after a whole sequence of ticks, their horizontal
/// inputs applied in order.
pub open spec fn facing_after_all(looking_right: bool, inputs: Seq<int>) -> bool
    decreases inputs.len(),
{
    if inputs.len() == 0 {
        looking_right
    } else {
        spec_facing_after(facing_after_all(looking_right, inputs.drop_last()), inputs.last())
    }
}

/// Facing is idempotent in the dead zone: over any sequence of ticks
/// whose horizontal input stays strictly inside the hysteresis band, the
/// facing flag never leaves its initial value.
pub proof fn lemma_facing_dead_zone(looking_right: bool, inputs: Seq<int>)
    requires
        forall|i: int|
            0 <= i < inputs.len() ==> -FACING_THRESHOLD < #[trigger] inputs[i] < FACING_THRESHOLD,
    ensures
        facing_after_all(looking_right, inputs) == looking_right,
    decreases inputs.len(),
{
    if inputs.len() > 0 {
        let front = inputs.drop_last();
        assert(forall|i: int| 0 <= i < front.len() ==> front[i] == inputs[i]);
        lemma_facing_dead_zone(looking_right, front);
    }
}

/// A short-hop release never raises the vertical velocity above its
/// value at release.
pub proof fn lemma_short_hop_no_raise(p: PlayerMovement, vy: int)
    ensures
        short_hop_clamp(p, vy) <= vy,
{
}

/// Releasing earlier never ends higher: the short-hop clamp is monotone
/// in the velocity at release.
pub proof fn lemma_short_hop_monotone(p: PlayerMovement, vy1: int, vy2: int)
    requires
        vy1 <= vy2,
    ensures
        short_hop_clamp(p, vy1) <= short_hop_clamp(p, vy2),
{
}

/// While both trajectories still ascend, a gravity step preserves their
/// order, so a clamped rise stays below an unclamped one tick by tick up
/// to its peak.
pub proof fn lemma_gravity_step_monotone_ascending(
    p: PlayerMovement,
    vy1: int,
    vy2: int,
    dt: int,
)
    requires
        0 < vy1 <= vy2,
    ensures
        grav_vy(p, vy1, dt) <= grav_vy(p, vy2, dt),
{
}

/// After the jump resolver, the ascent flag implies the actor is really
/// rising, as long as the short-hop velocity is positive: the flag is
/// cleared the moment the post-grant velocity stops being positive, and
/// the clamp never cuts below the short-hop velocity.
pub proof fn lemma_ascent_flag_implies_rising(
    i: TickInput,
    p: PlayerMovement,
    coyote: Timer,
    buffer: Timer,
    vy: int,
)
    requires
        p.min_jump_velocity > 0,
    ensures
        jumping_after(i, p, coyote, buffer, vy) ==> vy_after_controller(i, p, coyote, buffer, vy)
            > 0,
{
}

/// The peak of an unpowered flight under a sequence of gravity ticks,
/// each tick's updated velocity integrated into the height the way the
/// physics collaborator integrates it: the greatest height the arc
/// passes through, the starting height counted.
pub open spec fn peak_glide(p: PlayerMovement, vy: int, pos: int, dts: Seq<u64>) -> int
    decreases dts.len(),
{
    if dts.len() == 0 {
        pos
    } else {
        let dt: int = dts.first() as int;
        let vy1: int = grav_vy(p, vy, dt);
        let rest: int = peak_glide(p, vy1, pos + scaled(vy1, dt), dts.drop_first());
        if pos >= rest {
            pos
        } else {
            rest
        }
    }
}

proof fn lemma_peak_at_least_start(p: PlayerMovement, vy: int, pos: int, dts: Seq<u64>)
    ensures
        peak_glide(p, vy, pos, dts) >= pos,
{
}

/// A flight that starts descending never climbs again: its peak is its
/// starting height.
proof fn lemma_descending_peak(p: PlayerMovement, vy: int, pos: int, dts: Seq<u64>)
    requires
        p.jump_gravity <= 0,
        p.fall_gravity <= 0,
        vy <= 0,
    ensures
        peak_glide(p, vy, pos, dts) == pos,
    decreases dts.len(),
{
    if dts.len() > 0 {
        let dt: int = dts.first() as int;
        let vy1: int = grav_vy(p, vy, dt);
        assert(vy1 <= vy) by {
            lemma_scaled_nonpos(p.fall_gravity as int, dt);
        }
        assert(scaled(vy1, dt) <= 0) by {
            lemma_scaled_nonpos(vy1, dt);
        }
        lemma_descending_peak(p, vy1, pos + scaled(vy1, dt), dts.drop_first());
    }
}

/// Starting the rest of a flight lower and slower never yields a higher
/// peak: while the slower arc still ascends both arcs feel the same
/// ascent gravity and keep their order; once it descends it never climbs
/// again.
pub proof fn lemma_peak_monotone(
    p: PlayerMovement,
    vy_a: int,
    pos_a: int,
    vy_b: int,
    pos_b: int,
    dts: Seq<u64>,
)
    requires
        p.jump_gravity <= 0,
        p.fall_gravity <= 0,
        pos_a <= pos_b,
        vy_a > 0 ==> vy_a <= vy_b,
    ensures
        peak_glide(p, vy_a, pos_a, dts) <= peak_glide(p, vy_b, pos_b, dts),
    decreases dts.len(),
{
    if dts.len() == 0 {
    } else if vy_a <= 0 {
        lemma_descending_peak(p, vy_a, pos_a, dts);
        lemma_peak_at_least_start(p, vy_b, pos_b, dts);
    } else {
        let dt: int = dts.first() as int;
        let vy_a1: int = grav_vy(p, vy_a, dt);
        let vy_b1: int = grav_vy(p, vy_b, dt);
        lemma_scaled_monotone(vy_a1, vy_b1, dt);
        lemma_peak_monotone(
            p,
            vy_a1,
            pos_a + scaled(vy_a1, dt),
            vy_b1,
            pos_b + scaled(vy_b1, dt),
            dts.drop_first(),
        );
    }
}

/// Short-hop peak monotonicity: clamping the ascent at release never
/// yields a higher remaining arc than holding the jump, whatever gravity
/// ticks follow.
pub proof fn lemma_short_hop_peak(p: PlayerMovement, vy: int, pos: int, dts: Seq<u64>)
    requires
        p.jump_gravity <= 0,
        p.fall_gravity <= 0,
    ensures
        peak_glide(p, short_hop_clamp(p, vy), pos, dts) <= peak_glide(p, vy, pos, dts),
{
    lemma_peak_monotone(p, short_hop_clamp(p, vy), pos, vy, pos, dts);
}

/// A timer after a whole sequence of ticks, applied in order.
pub open spec fn ticked_all(t: Timer, dts: Seq<u64>) -> Timer
    decreases dts.len(),
{
    if dts.len() == 0 {
        t
    } else {
        ticked_all(t, dts.drop_last()).spec_ticked(dts.last())
    }
}

/// Total elapsed time of a sequence of ticks, in milliseconds.
pub open spec fn total_elapsed(dts: Seq<u64>) -> int
    decreases dts.len(),
{
    if dts.len() == 0 {
        0
    } else {
        total_elapsed(dts.drop_last()) + dts.last()
    }
}

proof fn lemma_total_elapsed_nonneg(dts: Seq<u64>)
    ensures
        total_elapsed(dts) >= 0,
    decreases dts.len(),
{
    if dts.len() > 0 {
        lemma_total_elapsed_nonneg(dts.drop_last());
    }
}

/// An idle timer stays idle through any sequence of ticks.
pub proof fn lemma_timer_idle_stays(t: Timer, dts: Seq<u64>)
    requires
        t.state is Idle,
    ensures
        ticked_all(t, dts) == t,
    decreases dts.len(),
{
    if dts.len() > 0 {
        lemma_timer_idle_stays(t, dts.drop_last());
    }
}

/// While the elapsed time falls short of the remaining window, a running
/// timer keeps running, with exactly the difference left.
pub proof fn lemma_timer_runs_within_window(t: Timer, r: u64, dts: Seq<u64>)
    requires
        t.state == TimerState::Running(r),
        total_elapsed(dts) < r,
    ensures
        ticked_all(t, dts) == (Timer {
            window: t.window,
            state: TimerState::Running((r - total_elapsed(dts)) as u64),
        }),
        ticked_all(t, dts).spec_available(),
    decreases dts.len(),
{
    if dts.len() > 0 {
        let front = dts.drop_last();
        lemma_total_elapsed_nonneg(front);
        lemma_timer_runs_within_window(t, r, front);
    }
}

/// Once the elapsed time reaches the remaining window, a running timer
/// has expired to idle.
pub proof fn lemma_timer_idle_after_window(t: Timer, r: u64, dts: Seq<u64>)
    requires
        t.state == TimerState::Running(r),
        r > 0,
        total_elapsed(dts) >= r,
    ensures
        ticked_all(t, dts) == (Timer { window: t.window, state: TimerState::Idle }),
    decreases dts.len(),
{
    let front = dts.drop_last();
    lemma_total_elapsed_nonneg(front);
    if total_elapsed(front) >= r {
        lemma_timer_idle_after_window(t, r, front);
    } else {
        lemma_timer_runs_within_window(t, r, front);
    }
}

/// Coyote window, granting half: after the actor walks off a ledge the
/// coyote timer is restarted; a jump press while the elapsed time since
/// then falls short of the window is granted exactly the jump velocity —
/// the same velocity a grounded jump grants.
pub proof fn lemma_coyote_grant_within_window(
    i_leave: TickInput,
    p_leave: PlayerMovement,
    coyote: Timer,
    buffer: Timer,
    vy_leave: int,
    dts: Seq<u64>,
    i_press: TickInput,
    p_press: PlayerMovement,
    buffer_press: Timer,
    vy_press: int,
)
    requires
        coyote_armed(i_leave, p_leave, coyote, buffer, vy_leave),
        coyote.window > 0,
        total_elapsed(dts) < coyote.window,
        i_press.jump_just_pressed,
    ensures
        ({
            let c1 = ticked_all(coyote_after(i_leave, p_leave, coyote, buffer, vy_leave), dts);
            press_grant(i_press, p_press, c1) && vy_after_grant(
                i_press,
                p_press,
                c1,
                buffer_press,
                vy_press,
            ) == p_press.jump_velocity
        }),
{
    let c0 = coyote_after(i_leave, p_leave, coyote, buffer, vy_leave);
    assert(c0 == coyote.spec_started());
    lemma_timer_runs_within_window(c0, coyote.window, dts);
}

/// Coyote window, denying half: once the elapsed time since arming
/// reaches the window, an airborne press with an idle jump buffer grants
/// nothing and leaves the vertical velocity alone.
pub proof fn lemma_coyote_expired_no_grant(
    i_leave: TickInput,
    p_leave: PlayerMovement,
    coyote: Timer,
    buffer: Timer,
    vy_leave: int,
    dts: Seq<u64>,
    i_press: TickInput,
    p_press: PlayerMovement,
    buffer_press: Timer,
    vy_press: int,
)
    requires
        coyote_armed(i_leave, p_leave, coyote, buffer, vy_leave),
        total_elapsed(dts) >= coyote.window,
        !p_press.on_floor,
        !buffer_press.spec_available(),
    ensures
        ({
            let c1 = ticked_all(coyote_after(i_leave, p_leave, coyote, buffer, vy_leave), dts);
            !granted(i_press, p_press, c1, buffer_press) && vy_after_grant(
                i_press,
                p_press,
                c1,
                buffer_press,
                vy_press,
            ) == vy_press
        }),
{
    let c0 = coyote_after(i_leave, p_leave, coyote, buffer, vy_leave);
    assert(c0 == coyote.spec_started());
    if coyote.window == 0 {
        lemma_timer_idle_stays(c0, dts);
    } else {
        lemma_timer_idle_after_window(c0, coyote.window, dts);
    }
}

/// A jump pressed while airborne with no coyote window open fires
/// nothing and starts the jump buffer at its full window.
pub proof fn lemma_press_starts_buffer(
    i: TickInput,
    p: PlayerMovement,
    coyote: Timer,
    buffer: Timer,
)
    requires
        i.jump_just_pressed,
        !p.on_floor,
        !coyote.spec_available(),
    ensures
        !granted(i, p, coyote, buffer),
        buffer_after(i, p, coyote, buffer) == buffer.spec_started(),
{
}

/// Jump buffer, granting half: landing while the started buffer still
/// has time left grants exactly one jump at the landing tick — the jump
/// velocity is granted and the buffer is consumed, so it cannot grant
/// again.
pub proof fn lemma_buffer_grant_on_landing(
    b: Timer,
    r: u64,
    dts: Seq<u64>,
    i_land: TickInput,
    p_land: PlayerMovement,
    coyote_land: Timer,
    vy_land: int,
)
    requires
        b.state == TimerState::Running(r),
        total_elapsed(dts) < r,
        p_land.on_floor,
    ensures
        ({
            let b1 = ticked_all(b, dts);
            buffer_grant(p_land, b1) && vy_after_grant(i_land, p_land, coyote_land, b1, vy_land)
                == p_land.jump_velocity && buffer_after(i_land, p_land, coyote_land, b1) == (Timer {
                window: b.window,
                state: TimerState::Idle,
            }) && !buffer_after(i_land, p_land, coyote_land, b1).spec_available()
        }),
{
    lemma_timer_runs_within_window(b, r, dts);
}

/// Jump buffer, denying half: landing only after the buffer window has
/// expired, with no fresh press, grants nothing.
pub proof fn lemma_buffer_expired_no_grant(
    b: Timer,
    r: u64,
    dts: Seq<u64>,
    i_land: TickInput,
    p_land: PlayerMovement,
    coyote_land: Timer,
    vy_land: int,
)
    requires
        b.state == TimerState::Running(r),
        r > 0,
        total_elapsed(dts) >= r,
        !i_land.jump_just_pressed,
    ensures
        ({
            let b1 = ticked_all(b, dts);
            !granted(i_land, p_land, coyote_land, b1) && vy_after_grant(
                i_land,
                p_land,
                coyote_land,
                b1,
                vy_land,
            ) == vy_land
        }),
{
    lemma_timer_idle_after_window(b, r, dts);
}

/// No double grant: within one tick, a buffered-jump grant and a
/// fresh-press grant cannot both fire. The one configuration left out is
/// a landing tick whose buffer still runs while jump is pressed yet
/// again — two presses inside a single buffer window.
pub proof fn lemma_no_double_grant(
    i: TickInput,
    p: PlayerMovement,
    coyote: Timer,
    buffer: Timer,
)
    requires
        !(p.on_floor && buffer.spec_available() && i.jump_just_pressed),
    ensures
        !(buffer_grant(p, buffer) && press_grant(i, p, coyote)),
{
}

/// One smoothing step never overshoots while the factor is at most one
/// whole unit: the new velocity stays between the old one and the target.
pub proof fn lemma_lerp_no_overshoot(v: int, t: int, k: int)
    requires
        0 <= k <= SCALE,
    ensures
        v <= t ==> v <= lerp_toward(v, t, k) <= t,
        t <= v ==> t <= lerp_toward(v, t, k) <= v,
{
    if v <= t {
        lemma_scaled_within(t - v, k);
    } else {
        lemma_scaled_within_neg(t - v, k);
    }
}

/// One smoothing step makes strict progress while the distance to the
/// target is at least `eps` and the factor covers the scale against
/// `eps`.
pub proof fn lemma_lerp_progress(v: int, t: int, k: int, eps: int)
    requires
        1 <= k <= SCALE,
        0 < eps,
        SCALE <= eps * k,
        mag(t - v) >= eps,
    ensures
        mag(t - lerp_toward(v, t, k)) <= mag(t - v) - 1,
{
    if v < t {
        lemma_scaled_progress(t - v, k, eps);
        lemma_scaled_within(t - v, k);
    } else {
        lemma_scaled_progress(v - t, k, eps);
        lemma_scaled_within_neg(t - v, k);
    }
}

/// The smoothing step iterated over a run of equal ticks.
pub open spec fn lerp_iterate(v: int, t: int, k: int, n: nat) -> int
    decreases n,
{
    if n == 0 {
        v
    } else {
        lerp_iterate(lerp_toward(v, t, k), t, k, (n - 1) as nat)
    }
}

/// Inside the epsilon band the iteration stays: the distance to the
/// target never grows again.
pub proof fn lemma_lerp_stays_within(v: int, t: int, k: int, eps: int, n: nat)
    requires
        0 <= k <= SCALE,
        mag(t - v) < eps,
    ensures
        mag(t - lerp_iterate(v, t, k, n)) < eps,
    decreases n,
{
    if n > 0 {
        lemma_lerp_no_overshoot(v, t, k);
        lemma_lerp_stays_within(lerp_toward(v, t, k), t, k, eps, (n - 1) as nat);
    }
}

/// Horizontal-velocity convergence: under a constant target and a
/// constant factor that covers the scale against `eps`, after at least
/// as many ticks as the initial distance the smoothed velocity sits
/// within `eps` of the target, and by `lemma_lerp_no_overshoot` it never
/// overshot on the way.
pub proof fn lemma_lerp_converges(v: int, t: int, k: int, eps: int, n: nat)
    requires
        1 <= k <= SCALE,
        0 < eps,
        SCALE <= eps * k,
        n >= mag(t - v),
    ensures
        mag(t - lerp_iterate(v, t, k, n)) < eps,
    decreases n,
{
    if mag(t - v) < eps {
        lemma_lerp_stays_within(v, t, k, eps, n);
    } else {
        lemma_lerp_progress(v, t, k, eps);
        lemma_lerp_converges(lerp_toward(v, t, k), t, k, eps, (n - 1) as nat);
    }
}

/// The accelerator stage never overshoots its target while its smoothing
/// factor is at most one whole unit; the snap to zero only fires with no
/// input, where the target itself is zero.
pub proof fn lemma_accelerate_no_overshoot(p: PlayerMovement, vx: int, dt: int)
    requires
        p.tunables_ok(),
        0 <= dt,
        lerp_factor(p, dt) <= SCALE,
    ensures
        vx <= target_vx(p) ==> vx <= accel_vx(p, vx, dt) <= target_vx(p),
        target_vx(p) <= vx ==> target_vx(p) <= accel_vx(p, vx, dt) <= vx,
{
    let base: int = if p.move_axis.x != 0 {
        p.acceleration as int
    } else {
        p.deceleration as int
    };
    assert(accel_rate(p) >= 0) by {
        if !p.on_floor {
            lemma_scaled_within(base, p.air_control as int);
        }
    }
    let k = lerp_factor(p, dt);
    assert(k >= 0) by {
        vstd::arithmetic::mul::lemma_mul_nonnegative(accel_rate(p), dt);
        vstd::arithmetic::div_mod::lemma_div_pos_is_pos(accel_rate(p) * dt, SCALE as int);
    }
    lemma_lerp_no_overshoot(vx, target_vx(p), k);
    if p.move_axis.x == 0 {
        assert(target_vx(p) == 0);
    }
}

/// The accelerator stage iterated over a run of equal ticks.
pub open spec fn accel_iterate(p: PlayerMovement, vx: int, dt: int, n: nat) -> int
    decreases n,
{
    if n == 0 {
        vx
    } else {
        accel_iterate(p, accel_vx(p, vx, dt), dt, (n - 1) as nat)
    }
}

/// Under held horizontal input the snap never fires, so the accelerator
/// iterates the bare smoothing step.
proof fn lemma_accel_iterate_is_lerp(p: PlayerMovement, vx: int, dt: int, n: nat)
    requires
        p.move_axis.x != 0,
    ensures
        accel_iterate(p, vx, dt, n) == lerp_iterate(vx, target_vx(p), lerp_factor(p, dt), n),
    decreases n,
{
    if n > 0 {
        lemma_accel_iterate_is_lerp(p, accel_vx(p, vx, dt), dt, (n - 1) as nat);
    }
}

/// Horizontal-velocity convergence at the stage itself: under constant
/// held input, with a smoothing factor of at least a tenth and at most
/// one whole unit, after at least as many ticks as the initial distance
/// the horizontal velocity sits within the snap epsilon of the
/// input-selected target (air control acts through the factor).
pub proof fn lemma_accelerate_converges(p: PlayerMovement, vx: int, dt: int, n: nat)
    requires
        p.move_axis.x != 0,
        1 <= lerp_factor(p, dt) <= SCALE,
        SCALE <= SNAP_EPSILON * lerp_factor(p, dt),
        n >= mag(target_vx(p) - vx),
    ensures
        mag(target_vx(p) - accel_iterate(p, vx, dt, n)) < SNAP_EPSILON,
{
    lemma_accel_iterate_is_lerp(p, vx, dt, n);
    lemma_lerp_converges(vx, target_vx(p), lerp_factor(p, dt), SNAP_EPSILON as int, n);
}

/// A stopped actor stays stopped: with no horizontal input the
/// accelerator maps zero to exactly zero, tick after tick.
proof fn lemma_decelerate_zero_stays(p: PlayerMovement, dt: int, n: nat)
    requires
        p.move_axis.x == 0,
    ensures
        accel_iterate(p, 0, dt, n) == 0,
    decreases n,
{
    if n > 0 {
        assert(target_vx(p) == 0);
        assert(accel_vx(p, 0, dt) == 0);
        lemma_decelerate_zero_stays(p, dt, (n - 1) as nat);
    }
}

/// Deceleration ends in an exact stop: with no horizontal input and a
/// smoothing factor of at least a tenth and at most one whole unit, the
/// creep shrinks tick by tick until the snap sets the horizontal
/// velocity to exactly zero, where it stays.
pub proof fn lemma_decelerate_reaches_zero(p: PlayerMovement, vx: int, dt: int, n: nat)
    requires
        p.move_axis.x == 0,
        1 <= lerp_factor(p, dt) <= SCALE,
        SCALE <= SNAP_EPSILON * lerp_factor(p, dt),
        n >= mag(vx) + 1,
    ensures
        accel_iterate(p, vx, dt, n) == 0,
    decreases n,
{
    let k = lerp_factor(p, dt);
    assert(target_vx(p) == 0);
    let next = accel_vx(p, vx, dt);
    if next == 0 {
        lemma_decelerate_zero_stays(p, dt, (n - 1) as nat);
    } else {
        lemma_lerp_no_overshoot(vx, 0, k);
        assert(mag(vx) >= SNAP_EPSILON);
        lemma_lerp_progress(vx, 0, k, SNAP_EPSILON as int);
        lemma_decelerate_reaches_zero(p, next, dt, (n - 1) as nat);
    }
}

} // verus!
