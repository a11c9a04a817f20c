//! The kinematic velocity and its per-tick integrator.
//!
//! The velocity vector is the single source of truth for motion; every
//! controller read-modifies it, and the integrator alone turns it into a
//! displacement. Each tick the integrator first reconciles the previous
//! tick's collision outcome: an axis where the collision layer applied
//! meaningfully less than was requested was blocked, and its velocity is
//! zeroed so that no energy builds up against walls, floors or ceilings.

use vstd::prelude::*;

use crate::math::{muldiv, muldiv_s, sat_add, sat_add_s, Vec2, DT_LIMIT, LIMIT, SCALE};

verus! {

/// Requested-versus-applied divergence (per axis) above which motion counts
/// as blocked: one hundredth of a unit, in milli-units.
pub const LENIENCY: i64 = 10;

/// The authoritative 2D velocity of the actor, in milli-units per second.
#[derive(Clone, Copy, PartialEq, Eq, Structural, Debug, Default)]
pub struct KinematicVelocity {
    pub x: i64,
    pub y: i64,
}

impl KinematicVelocity {
    pub open spec fn wf(self) -> bool {
        &&& -LIMIT <= self.x <= LIMIT
        &&& -LIMIT <= self.y <= LIMIT
    }

    pub fn new(x: i64, y: i64) -> (r: KinematicVelocity)
        ensures
            r.x == x,
            r.y == y,
    {
        KinematicVelocity { x, y }
    }

    pub fn to_vec2(self) -> (r: Vec2)
        ensures
            r.x == self.x,
            r.y == self.y,
    {
        Vec2 { x: self.x, y: self.y }
    }

    pub fn from_vec2(v: Vec2) -> (r: KinematicVelocity)
        ensures
            r.x == v.x,
            r.y == v.y,
    {
        KinematicVelocity { x: v.x, y: v.y }
    }

    /// Saturating component-wise accumulation, the `+=` of the controllers.
    pub fn accumulate(&mut self, rhs: Vec2)
        requires
            old(self).wf(),
            rhs.wf(),
        ensures
            final(self).x == sat_add_s(old(self).x as int, rhs.x as int),
            final(self).y == sat_add_s(old(self).y as int, rhs.y as int),
            final(self).wf(),
    {
        self.x = sat_add(self.x, rhs.x);
        self.y = sat_add(self.y, rhs.y);
    }
}

/// What the external collision layer reports for the previous tick: the
/// displacement the integrator requested, the displacement actually applied
/// after resolution, and whether the actor stands on ground.
#[derive(Clone, Copy, PartialEq, Eq, Structural, Debug)]
pub struct CollisionOutcome {
    pub desired_translation: Vec2,
    pub effective_translation: Vec2,
    pub grounded: bool,
}

impl CollisionOutcome {
    pub open spec fn wf(self) -> bool {
        &&& self.desired_translation.wf()
        &&& self.effective_translation.wf()
    }
}

/// An axis was blocked: requested and applied displacement diverge by more
/// than the leniency.
pub open spec fn blocked(desired: int, effective: int) -> bool {
    desired - effective > LENIENCY || effective - desired > LENIENCY
}

/// The velocity after reconciling a collision outcome: blocked axes zeroed.
pub open spec fn collision_check_s(v: KinematicVelocity, output: Option<CollisionOutcome>)
    -> KinematicVelocity {
    match output {
        None => v,
        Some(o) => KinematicVelocity {
            x: if blocked(o.desired_translation.x as int, o.effective_translation.x as int) {
                0
            } else {
                v.x
            },
            y: if blocked(o.desired_translation.y as int, o.effective_translation.y as int) {
                0
            } else {
                v.y
            },
        },
    }
}

/// Zero the velocity on every axis the collision layer blocked last tick.
/// An axis that was blocked carries exactly zero velocity afterwards, so no
/// energy accumulates against an obstacle.
pub fn kinematic_velocity_collision_check(
    vel: &mut KinematicVelocity,
    output: &Option<CollisionOutcome>,
)
    requires
        old(vel).wf(),
        match *output {
            Some(o) => o.wf(),
            None => true,
        },
    ensures
        *final(vel) == collision_check_s(*old(vel), *output),
        final(vel).wf(),
{
    match output {
        None => {},
        Some(o) => {
            let dx: i64 = o.desired_translation.x - o.effective_translation.x;
            if dx > LENIENCY || -dx > LENIENCY {
                vel.x = 0;
            }
            let dy: i64 = o.desired_translation.y - o.effective_translation.y;
            if dy > LENIENCY || -dy > LENIENCY {
                vel.y = 0;
            }
        },
    }
}

/// The displacement a velocity requests over `dt` milliseconds.
pub open spec fn translation_s(v: KinematicVelocity, dt: u64) -> Vec2 {
    Vec2 {
        x: muldiv_s(v.x as int, dt as int, SCALE as int) as i64,
        y: muldiv_s(v.y as int, dt as int, SCALE as int) as i64,
    }
}

/// One integrator tick as a whole: the reconciled velocity, the new
/// transform, and the displacement request handed to the collision layer.
#[verifier::opaque]
pub open spec fn kinematic_velocity_s(
    v: KinematicVelocity,
    transform: Vec2,
    has_controller: bool,
    output: Option<CollisionOutcome>,
    dt: u64,
) -> (KinematicVelocity, Vec2, Option<Vec2>) {
    let v1 = collision_check_s(v, output);
    let t = translation_s(v1, dt);
    if has_controller {
        (v1, transform, Some(t))
    } else {
        (
            v1,
            Vec2 {
                x: sat_add_s(transform.x as int, t.x as int) as i64,
                y: sat_add_s(transform.y as int, t.y as int) as i64,
            },
            None,
        )
    }
}

/// One integrator tick: reconcile last tick's collision outcome, then turn
/// the velocity into this tick's displacement. With a collision-resolved
/// body (`has_controller`) the displacement is returned as the request for
/// the collision layer and the transform is left alone; otherwise it is
/// applied to the transform directly and nothing is requested.
pub fn kinematic_velocity(
    vel: &mut KinematicVelocity,
    transform: &mut Vec2,
    has_controller: bool,
    output: &Option<CollisionOutcome>,
    dt: u64,
) -> (request: Option<Vec2>)
    requires
        old(vel).wf(),
        old(transform).wf(),
        match *output {
            Some(o) => o.wf(),
            None => true,
        },
        dt <= DT_LIMIT,
    ensures
        *final(vel) == collision_check_s(*old(vel), *output),
        final(vel).wf(),
        has_controller ==> {
            &&& request == Some(translation_s(*final(vel), dt))
            &&& *final(transform) == *old(transform)
        },
        !has_controller ==> {
            &&& request.is_none()
            &&& final(transform).x == sat_add_s(
                old(transform).x as int,
                translation_s(*final(vel), dt).x as int,
            )
            &&& final(transform).y == sat_add_s(
                old(transform).y as int,
                translation_s(*final(vel), dt).y as int,
            )
        },
        (*final(vel), *final(transform), request) == kinematic_velocity_s(*old(vel),
            *old(transform), has_controller, *output, dt),
        final(transform).wf(),
{
    proof {
        reveal(kinematic_velocity_s);
    }
    kinematic_velocity_collision_check(vel, output);
    let translation = Vec2 {
        x: muldiv(vel.x, dt as i64, SCALE),
        y: muldiv(vel.y, dt as i64, SCALE),
    };
    if has_controller {
        Some(translation)
    } else {
        transform.x = sat_add(transform.x, translation.x);
        transform.y = sat_add(transform.y, translation.y);
        None
    }
}

} // verus!
