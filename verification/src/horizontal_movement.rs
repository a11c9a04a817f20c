//! Horizontal movement controller.
//!
//! Converts the run axis value into acceleration toward a target speed and
//! deceleration toward rest, with separate air coefficients. Both branches
//! may fire in one tick: that is how a turn-around blends deceleration into
//! acceleration the other way.

use vstd::prelude::*;

use crate::math::{muldiv, muldiv_s, sat_add, sat_add_s, sgn, DT_LIMIT, LIMIT, SCALE};
use crate::velocity::{CollisionOutcome, KinematicVelocity};

verus! {

/// Designer constants of the horizontal controller. Speeds are milli-units
/// per second, times are milliseconds, multipliers are thousandths.
#[derive(Clone, Copy, PartialEq, Eq, Structural, Debug)]
pub struct HorizontalMovement {
    pub max_speed: i64,
    pub acceleration_time: u64,
    pub deccelration_time: u64,
    pub turn_around_multi: i64,
    pub air_control_multi: i64,
    pub air_friction_multi: i64,
}

impl HorizontalMovement {
    /// Valid designer constants: positive times, non-negative bounded
    /// speed and multipliers.
    pub open spec fn wf(self) -> bool {
        &&& 0 <= self.max_speed < LIMIT
        &&& 0 < self.acceleration_time <= DT_LIMIT
        &&& 0 < self.deccelration_time <= DT_LIMIT
        &&& 0 <= self.turn_around_multi <= LIMIT
        &&& 0 <= self.air_control_multi <= LIMIT
        &&& 0 <= self.air_friction_multi <= LIMIT
    }
}

/// The horizontal velocity after one deceleration step: a fixed fraction of
/// the maximum speed is removed against the current direction, clamped to
/// zero at the sign change so the speed cannot oscillate around rest.
pub open spec fn deccelerate_s(vx: int, m: HorizontalMovement, grounded: bool, dt: int) -> int {
    let air_multi = if grounded { SCALE as int } else { m.air_friction_multi as int };
    let step = muldiv_s(muldiv_s(m.max_speed as int, air_multi, SCALE as int), dt,
        m.deccelration_time as int);
    let nx = sat_add_s(vx, -sgn(vx) * step);
    if sgn(nx) != sgn(vx) {
        0
    } else {
        nx
    }
}

/// The acceleration step toward the target speed for one tick.
pub open spec fn accel_add_s(vx: int, m: HorizontalMovement, grounded: bool, input: int, dt: int)
    -> int {
    let aim = muldiv_s(m.max_speed as int, input, SCALE as int);
    let aim = if sgn(input) != sgn(vx) {
        muldiv_s(aim, m.turn_around_multi as int, SCALE as int)
    } else {
        aim
    };
    let a = muldiv_s(aim, dt, m.acceleration_time as int);
    if grounded {
        a
    } else {
        muldiv_s(a, m.air_control_multi as int, SCALE as int)
    }
}

/// The horizontal velocity after one acceleration step. The step is rejected
/// when it would push the speed past the maximum in the direction already
/// travelled; a turn-around step against the current direction may briefly
/// overshoot.
pub open spec fn accelerate_s(vx: int, m: HorizontalMovement, grounded: bool, input: int, dt: int)
    -> int {
    let a = accel_add_s(vx, m, grounded, input, dt);
    let nx = sat_add_s(vx, a);
    if (nx > m.max_speed || nx < -m.max_speed) && sgn(vx) == sgn(a) {
        vx
    } else {
        nx
    }
}

/// Whether the deceleration branch fires: no input, or input against the
/// current direction of travel.
pub open spec fn decel_fires(vx: int, input: int) -> bool {
    input == 0 || sgn(input) != sgn(vx)
}

/// Whether the acceleration branch fires, judged on the velocity the
/// deceleration branch may already have changed this tick.
pub open spec fn accel_fires(vx: int, m: HorizontalMovement, input: int) -> bool {
    input != 0 && (-m.max_speed <= vx <= m.max_speed || sgn(vx) != sgn(input))
}

/// The horizontal velocity after a full controller tick.
#[verifier::opaque]
pub open spec fn horizontal_movement_s(vx: int, m: HorizontalMovement, grounded: bool, input: int,
    dt: int) -> int {
    let v1 = if decel_fires(vx, input) {
        deccelerate_s(vx, m, grounded, dt)
    } else {
        vx
    };
    if accel_fires(v1, m, input) {
        accelerate_s(v1, m, grounded, input, dt)
    } else {
        v1
    }
}

/// Decelerate toward rest, clamping to exactly zero at the sign change.
pub fn deccelerate(
    vel: &mut KinematicVelocity,
    movement: &HorizontalMovement,
    output: &CollisionOutcome,
    dt: u64,
)
    requires
        old(vel).wf(),
        movement.wf(),
        dt <= DT_LIMIT,
    ensures
        final(vel).x == deccelerate_s(old(vel).x as int, *movement, output.grounded, dt as int),
        final(vel).y == old(vel).y,
        final(vel).wf(),
{
    let sign: i64 = if vel.x < 0 { -1 } else { 1 };
    let air_multi: i64 = if output.grounded { SCALE } else { movement.air_friction_multi };
    let step: i64 = muldiv(
        muldiv(movement.max_speed, air_multi, SCALE),
        dt as i64,
        movement.deccelration_time as i64,
    );
    let delta: i64 = if sign < 0 { step } else { -step };
    proof {
        if old(vel).x < 0 {
            assert(-sgn(old(vel).x as int) * step == 1 * step);
        } else {
            assert(-sgn(old(vel).x as int) * step == -1 * step);
        }
    }
    let nx: i64 = sat_add(vel.x, delta);
    let new_sign: i64 = if nx < 0 { -1 } else { 1 };
    if new_sign != sign {
        vel.x = 0;
    } else {
        vel.x = nx;
    }
}

/// Accelerate toward `max_speed * input`, with turn-around and air-control
/// multipliers; reject the step if it would overshoot the maximum while
/// moving with the current direction.
pub fn accelerate(
    vel: &mut KinematicVelocity,
    movement: &HorizontalMovement,
    output: &CollisionOutcome,
    input: i64,
    dt: u64,
)
    requires
        old(vel).wf(),
        movement.wf(),
        -SCALE <= input <= SCALE,
        dt <= DT_LIMIT,
    ensures
        final(vel).x == accelerate_s(old(vel).x as int, *movement, output.grounded, input as int,
            dt as int),
        final(vel).y == old(vel).y,
        final(vel).wf(),
{
    let mut aim_speed: i64 = muldiv(movement.max_speed, input, SCALE);
    let input_sign: i64 = if input < 0 { -1 } else { 1 };
    let vel_sign: i64 = if vel.x < 0 { -1 } else { 1 };
    if input_sign != vel_sign {
        aim_speed = muldiv(aim_speed, movement.turn_around_multi, SCALE);
    }
    let mut vel_add: i64 = muldiv(aim_speed, dt as i64, movement.acceleration_time as i64);
    if !output.grounded {
        vel_add = muldiv(vel_add, movement.air_control_multi, SCALE);
    }
    let nx: i64 = sat_add(vel.x, vel_add);
    let add_sign: i64 = if vel_add < 0 { -1 } else { 1 };
    let over: bool = nx > movement.max_speed || -nx > movement.max_speed;
    if over && vel_sign == add_sign {
        return;
    }
    vel.x = nx;
}

/// One horizontal controller tick: decelerate when the input is absent or
/// opposes the motion, then accelerate when an input asks for speed the
/// actor does not have yet.
pub fn horizontal_movement(
    vel: &mut KinematicVelocity,
    movement: &HorizontalMovement,
    output: &CollisionOutcome,
    input: i64,
    dt: u64,
)
    requires
        old(vel).wf(),
        movement.wf(),
        -SCALE <= input <= SCALE,
        dt <= DT_LIMIT,
    ensures
        final(vel).x == horizontal_movement_s(old(vel).x as int, *movement, output.grounded,
            input as int, dt as int),
        final(vel).y == old(vel).y,
        final(vel).wf(),
{
    proof {
        reveal(horizontal_movement_s);
    }
    let input_sign: i64 = if input < 0 { -1 } else { 1 };
    let vel_sign: i64 = if vel.x < 0 { -1 } else { 1 };
    if input == 0 || input_sign != vel_sign {
        deccelerate(vel, movement, output, dt);
    }
    let abs_vx: i64 = if vel.x < 0 { -vel.x } else { vel.x };
    let vel_sign_now: i64 = if vel.x < 0 { -1 } else { 1 };
    if input != 0 && (abs_vx <= movement.max_speed || vel_sign_now != input_sign) {
        accelerate(vel, movement, output, input, dt);
    }
}

/// The horizontal velocity after a run of grounded full-throttle ticks.
pub open spec fn full_throttle_run_s(vx: int, m: HorizontalMovement, dts: Seq<u64>) -> int
    decreases dts.len(),
{
    if dts.len() == 0 {
        vx
    } else {
        full_throttle_run_s(
            horizontal_movement_s(vx, m, true, SCALE as int, dts[0] as int),
            m,
            dts.subrange(1, dts.len() as int),
        )
    }
}

/// Speed cap over time: starting between rest and the maximum, any run of
/// grounded full-throttle ticks keeps the horizontal velocity in that band
/// — the speed converges toward the cap and never exceeds it.
pub proof fn lemma_speed_cap_run(vx: int, m: HorizontalMovement, dts: Seq<u64>)
    requires
        m.wf(),
        0 <= vx <= m.max_speed,
        forall|i: int| 0 <= i < dts.len() ==> dts[i] <= DT_LIMIT,
    ensures
        0 <= full_throttle_run_s(vx, m, dts) <= m.max_speed,
    decreases dts.len(),
{
    if dts.len() > 0 {
        lemma_speed_cap(vx, m, dts[0] as int);
        let next = horizontal_movement_s(vx, m, true, SCALE as int, dts[0] as int);
        let rest = dts.subrange(1, dts.len() as int);
        assert(forall|i: int| 0 <= i < rest.len() ==> rest[i] == dts[i + 1]);
        lemma_speed_cap_run(next, m, rest);
    }
}

/// Speed cap: from a speed between rest and the maximum, a full-throttle
/// grounded tick in the same direction never leaves that band, and while the
/// cap is not yet reached the speed grows by exactly the acceleration step.
pub proof fn lemma_speed_cap(vx: int, m: HorizontalMovement, dt: int)
    requires
        m.wf(),
        0 <= vx <= m.max_speed,
        0 <= dt <= DT_LIMIT,
    ensures
        ({
            let nx = horizontal_movement_s(vx, m, true, SCALE as int, dt);
            let step = muldiv_s(m.max_speed as int, dt, m.acceleration_time as int);
            &&& 0 <= nx <= m.max_speed
            &&& vx + step <= m.max_speed ==> nx == vx + step
            &&& vx + step > m.max_speed ==> nx == vx
        }),
{
    reveal(horizontal_movement_s);
    let step = muldiv_s(m.max_speed as int, dt, m.acceleration_time as int);
    assert(muldiv_s(m.max_speed as int, SCALE as int, SCALE as int) == m.max_speed) by {
        assert(m.max_speed * SCALE / (SCALE as int) == m.max_speed) by (nonlinear_arith)
            requires 0 <= m.max_speed;
    };
    assert(0 <= step <= LIMIT) by {
        assert(0 <= m.max_speed * dt) by (nonlinear_arith)
            requires 0 <= m.max_speed, 0 <= dt;
        assert(m.max_speed * dt / (m.acceleration_time as int) >= 0);
    };
}

} // verus!

