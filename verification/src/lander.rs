//! Landing controller.
//!
//! Watches for a qualifying fast landing: the actor was airborne last tick
//! and falling faster than the qualifying threshold, is grounded now, and
//! the land input is held with its press still inside the buffer window.
//! On qualifying, a landing impulse is added along a direction preferring
//! the collision-resolved displacement, then the current velocity, then a
//! fixed diagonal. The previous tick's air state and vertical velocity are
//! tracked here because the qualification spans two ticks.

use vstd::prelude::*;

use crate::input::{InputAction, InputSnapshot};
use crate::math::{muldiv, muldiv_s, norm_or_zero, norm_s, sat_add_s, Vec2, DT_LIMIT, LIMIT,
    SCALE};
use crate::state_machine::{GroundedState, InAirState};
use crate::timer::Timer;
use crate::velocity::{CollisionOutcome, KinematicVelocity};

verus! {

/// Squared-displacement divergence (in squared milli-units) above which
/// the collision-resolved displacement counts as a glancing contact.
pub const LANDING_EPS_SQ: i64 = 10_000;

/// Landing constants and the cross-tick tracking state. Velocities are
/// milli-units per second, multipliers thousandths, the buffer
/// milliseconds.
#[derive(Clone, Copy, PartialEq, Eq, Structural, Debug)]
pub struct Lander {
    pub land_buffer_timer: Timer,
    pub vel_boost: Vec2,
    pub vel_multi: i64,
    pub vel_cap: i64,
    pub min_land_vel: i64,
    pub prev_state: Option<InAirState>,
    pub prev_vel: i64,
}

impl Lander {
    pub open spec fn wf(self) -> bool {
        &&& self.land_buffer_timer.wf()
        &&& self.vel_boost.wf()
        &&& 0 <= self.vel_multi <= LIMIT
        &&& 0 <= self.vel_cap <= LIMIT
        &&& -LIMIT <= self.min_land_vel <= 0
        &&& -LIMIT <= self.prev_vel <= LIMIT
    }

    pub fn new(
        land_buffer_time_ms: u64,
        vel_boost: Vec2,
        vel_multi: i64,
        vel_cap: i64,
        min_land_vel: i64,
    ) -> (r: Lander)
        requires
            vel_boost.wf(),
            0 <= vel_multi <= LIMIT,
            0 <= vel_cap <= LIMIT,
            -LIMIT <= min_land_vel <= 0,
        ensures
            r.land_buffer_timer.duration_ms == land_buffer_time_ms,
            r.land_buffer_timer.elapsed_ms == 0,
            r.vel_boost == vel_boost,
            r.vel_multi == vel_multi,
            r.vel_cap == vel_cap,
            r.min_land_vel == min_land_vel,
            r.prev_state.is_none(),
            r.prev_vel == 0,
            r.wf(),
    {
        Lander {
            land_buffer_timer: Timer::new(land_buffer_time_ms),
            vel_boost,
            vel_multi,
            vel_cap,
            min_land_vel,
            prev_state: None,
            prev_vel: 0,
        }
    }
}

/// The landing qualifies: grounded now, land input held, the previous tick
/// was airborne and falling past the qualifying speed, and the land press
/// is still buffered.
pub open spec fn should_land_s(l: Lander, input: InputSnapshot,
    state: Option<GroundedState>) -> bool {
    &&& state.is_some()
    &&& input.spec_pressed(InputAction::Land)
    &&& l.prev_vel < l.min_land_vel
    &&& l.prev_state.is_some()
    &&& !l.land_buffer_timer.spec_finished()
}

/// Judge this tick's landing qualification.
pub fn should_land(lander_state: &Lander, input: &InputSnapshot,
    state: Option<GroundedState>) -> (r: bool)
    ensures
        r == should_land_s(*lander_state, *input, state),
{
    state.is_some() && input.pressed(InputAction::Land)
        && lander_state.prev_vel < lander_state.min_land_vel
        && lander_state.prev_state.is_some() && !lander_state.land_buffer_timer.finished()
}

/// The collision-resolved displacement diverges enough from the request to
/// count as a glancing contact.
pub open spec fn landing_glance_s(o: CollisionOutcome) -> bool {
    let e = o.effective_translation;
    let d = o.desired_translation;
    e.x * e.x + e.y * e.y - (d.x * d.x + d.y * d.y) > LANDING_EPS_SQ
}

/// The direction of the landing impulse: the normalized requested
/// displacement on a glancing contact, else the normalized velocity, else
/// a unit diagonal.
pub open spec fn landing_dir_s(v: KinematicVelocity, o: CollisionOutcome) -> Vec2 {
    let from_out = norm_s(o.desired_translation);
    if landing_glance_s(o) && from_out != (Vec2 { x: 0, y: 0 }) {
        from_out
    } else {
        let from_vel = norm_s(Vec2 { x: v.x, y: v.y });
        if from_vel == (Vec2 { x: 0, y: 0 }) {
            norm_s(Vec2 { x: SCALE, y: SCALE })
        } else {
            from_vel
        }
    }
}

/// Choose the landing direction for this tick.
pub fn get_landing_dir(vel: &KinematicVelocity, output: &CollisionOutcome) -> (r: Vec2)
    requires
        vel.wf(),
        output.wf(),
    ensures
        r == landing_dir_s(*vel, *output),
        r.wf(),
{
    let e = output.effective_translation;
    let d = output.desired_translation;
    proof {
        assert(0 <= e.x * e.x <= i128::MAX && 0 <= e.y * e.y <= i128::MAX
            && 0 <= d.x * d.x <= i128::MAX && 0 <= d.y * d.y <= i128::MAX
            && e.x * e.x + e.y * e.y <= i128::MAX && d.x * d.x + d.y * d.y <= i128::MAX
            && -(i128::MAX as int) <= e.x * e.x + e.y * e.y - (d.x * d.x + d.y * d.y)
                <= i128::MAX) by (nonlinear_arith)
            requires
                -LIMIT <= e.x <= LIMIT,
                -LIMIT <= e.y <= LIMIT,
                -LIMIT <= d.x <= LIMIT,
                -LIMIT <= d.y <= LIMIT;
    }
    let len2_eff: i128 = (e.x as i128) * (e.x as i128) + (e.y as i128) * (e.y as i128);
    let len2_des: i128 = (d.x as i128) * (d.x as i128) + (d.y as i128) * (d.y as i128);
    if len2_eff - len2_des > LANDING_EPS_SQ as i128 {
        let desired = norm_or_zero(d);
        if !(desired.x == 0 && desired.y == 0) {
            return desired;
        }
    }
    let from_vel = norm_or_zero(Vec2 { x: vel.x, y: vel.y });
    if from_vel.x == 0 && from_vel.y == 0 {
        return norm_or_zero(Vec2 { x: SCALE, y: SCALE });
    }
    from_vel
}

/// The landing multiplier, one on each axis (in thousandths).
pub fn get_landing_multi() -> (r: Vec2)
    ensures
        r == (Vec2 { x: SCALE, y: SCALE }),
{
    Vec2 { x: SCALE, y: SCALE }
}

/// The impulse a qualifying landing adds: the direction scaled by the
/// landing multiplier, a thousandfold.
pub open spec fn landing_add_s(dir: Vec2) -> Vec2 {
    Vec2 {
        x: muldiv_s(dir.x as int, SCALE * SCALE, SCALE as int) as i64,
        y: muldiv_s(dir.y as int, SCALE * SCALE, SCALE as int) as i64,
    }
}

/// One landing-controller tick, as a whole: buffer bookkeeping, the boost
/// when the landing qualifies, and the cross-tick tracking update.
#[verifier::opaque]
pub open spec fn lander_s(
    l: Lander,
    v: KinematicVelocity,
    input: InputSnapshot,
    in_air_state: Option<InAirState>,
    grounded_state: Option<GroundedState>,
    o: CollisionOutcome,
    dt: u64,
) -> (Lander, KinematicVelocity) {
    let t1 = l.land_buffer_timer.tick_s(dt);
    let t2 = if input.spec_just_pressed(InputAction::Land) {
        Timer { duration_ms: t1.duration_ms, elapsed_ms: 0 }
    } else {
        t1
    };
    let timed = Lander { land_buffer_timer: t2, ..l };
    let boosted = if should_land_s(timed, input, grounded_state) {
        let add = landing_add_s(landing_dir_s(v, o));
        KinematicVelocity {
            x: sat_add_s(v.x as int, add.x as int) as i64,
            y: sat_add_s(v.y as int, add.y as int) as i64,
        }
    } else {
        v
    };
    (
        Lander { prev_state: in_air_state, prev_vel: boosted.y, ..timed },
        boosted,
    )
}

/// One landing-controller tick: advance the buffer, apply the boost when
/// the landing qualifies, and always record this tick's air state and
/// vertical velocity for the next one.
pub fn lander(
    lander_state: &mut Lander,
    vel: &mut KinematicVelocity,
    input: &InputSnapshot,
    in_air_state: Option<InAirState>,
    grounded_state: Option<GroundedState>,
    output: &CollisionOutcome,
    dt: u64,
)
    requires
        old(lander_state).wf(),
        old(vel).wf(),
        output.wf(),
        dt <= DT_LIMIT,
    ensures
        (*final(lander_state), *final(vel)) == lander_s(*old(lander_state), *old(vel), *input,
            in_air_state, grounded_state, *output, dt),
        final(lander_state).wf(),
        final(vel).wf(),
{
    proof {
        reveal(lander_s);
    }
    lander_state.land_buffer_timer.tick(dt);
    if input.just_pressed(InputAction::Land) {
        lander_state.land_buffer_timer.reset();
    }
    if !should_land(lander_state, input, grounded_state) {
        lander_state.prev_state = in_air_state;
        lander_state.prev_vel = vel.y;
        return;
    }

    let dir = get_landing_dir(vel, output);
    let multi = get_landing_multi();
    let add = Vec2 {
        x: muldiv(dir.x, multi.x * SCALE, SCALE),
        y: muldiv(dir.y, multi.y * SCALE, SCALE),
    };
    vel.accumulate(add);

    lander_state.prev_state = in_air_state;
    lander_state.prev_vel = vel.y;
}

} // verus!
