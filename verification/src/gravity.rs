//! Gravity accumulator.
//!
//! Adds the global gravity vector, scaled by an optional per-actor factor and
//! by the tick's delta time, to the velocity of every actor opted into
//! gravity. It runs after the integrator's reconciliation, so the added
//! velocity affects the next displacement, not the one just resolved.

use vstd::prelude::*;

use crate::math::{muldiv, muldiv_s, Vec2, DT_LIMIT, LIMIT, SCALE};
use crate::velocity::KinematicVelocity;

verus! {

/// The global gravity acceleration, in milli-units per second squared.
#[derive(Clone, Copy, PartialEq, Eq, Structural, Debug)]
pub struct KinematicGravity(pub Vec2);

/// Marker: the actor opts into gravity accumulation.
#[derive(Clone, Copy, PartialEq, Eq, Structural, Debug, Default)]
pub struct KinematicGravityUser;

/// The velocity gained from gravity over `dt` milliseconds, under a
/// per-actor scale in thousandths.
pub open spec fn gravity_add_s(g: Vec2, scale: int, dt: int) -> Vec2 {
    Vec2 {
        x: muldiv_s(muldiv_s(g.x as int, scale, SCALE as int), dt, SCALE as int) as i64,
        y: muldiv_s(muldiv_s(g.y as int, scale, SCALE as int), dt, SCALE as int) as i64,
    }
}

/// The per-actor scale: the stored factor, or one (in thousandths) if unset.
pub open spec fn gravity_scale_s(scale: Option<i64>) -> int {
    match scale {
        Some(s) => s as int,
        None => SCALE as int,
    }
}

/// The velocity after one gravity tick.
#[verifier::opaque]
pub open spec fn kinematic_gravity_s(v: KinematicVelocity, g: Vec2, scale: Option<i64>,
    dt: u64) -> KinematicVelocity {
    let a = gravity_add_s(g, gravity_scale_s(scale), dt as int);
    KinematicVelocity {
        x: crate::math::sat_add_s(v.x as int, a.x as int) as i64,
        y: crate::math::sat_add_s(v.y as int, a.y as int) as i64,
    }
}

/// Accumulate gravity into the velocity:
/// `velocity += gravity * scale * dt`, saturating.
pub fn kinematic_gravity(
    vel: &mut KinematicVelocity,
    gravity: &KinematicGravity,
    scale: Option<i64>,
    dt: u64,
)
    requires
        old(vel).wf(),
        gravity.0.wf(),
        match scale {
            Some(s) => -LIMIT <= s <= LIMIT,
            None => true,
        },
        dt <= DT_LIMIT,
    ensures
        *final(vel) == kinematic_gravity_s(*old(vel), gravity.0, scale, dt),
        final(vel).wf(),
{
    proof {
        reveal(kinematic_gravity_s);
    }
    let s: i64 = match scale {
        Some(s) => s,
        None => SCALE,
    };
    let add = Vec2 {
        x: muldiv(muldiv(gravity.0.x, s, SCALE), dt as i64, SCALE),
        y: muldiv(muldiv(gravity.0.y, s, SCALE), dt as i64, SCALE),
    };
    vel.accumulate(add);
}

} // verus!
