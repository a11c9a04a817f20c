//! The hierarchical motion state machine.
//!
//! Three independent state axes — grounded, in-air and wall — each either
//! absent (the axis does not apply) or carrying exactly one value. The
//! transition rules are pure predicates over a read-only tick snapshot,
//! evaluated in a fixed priority order; at most one transition fires per
//! axis per tick. The eligibility predicates delegate to the jump and
//! grapple controllers' own queries rather than duplicating their
//! thresholds.

use vstd::prelude::*;

use crate::grappler::Grappler;
use crate::jumper::Jumper;
use crate::velocity::{CollisionOutcome, KinematicVelocity};

verus! {

/// Horizontal speed (milli-units per second) above which a grounded actor
/// counts as walking.
pub const WALK_THRESHOLD: i64 = 5_000;

/// Vertical speed (milli-units per second) below which an airborne actor
/// counts as falling rather than rising.
pub const FALL_THRESHOLD: i64 = -5_000;

#[derive(Clone, Copy, PartialEq, Eq, Structural, Debug)]
pub enum GroundedState {
    Idle,
    Walking,
    Jumping,
}

#[derive(Clone, Copy, PartialEq, Eq, Structural, Debug)]
pub enum InAirState {
    Rising,
    Falling,
    Grapple,
}

#[derive(Clone, Copy, PartialEq, Eq, Structural, Debug)]
pub enum WallState {
    Rising,
    Sliding,
    Jumping,
}

/// The three optional state axes of the actor.
#[derive(Clone, Copy, PartialEq, Eq, Structural, Debug)]
pub struct MotionState {
    pub ground: Option<GroundedState>,
    pub air: Option<InAirState>,
    pub wall: Option<WallState>,
}

/// A grapple anchor candidate is in range.
pub fn can_grapple_trigger(grappler: Option<&Grappler>) -> (r: bool)
    ensures
        r == match grappler {
            Some(g) => g.spec_can_grapple(),
            None => false,
        },
{
    match grappler {
        Some(g) => g.can_grapple(),
        None => false,
    }
}

/// A grapple anchor is currently locked.
pub fn grappling_trigger(grappler: Option<&Grappler>) -> (r: bool)
    ensures
        r == match grappler {
            Some(g) => g.spec_is_grappling(),
            None => false,
        },
{
    match grappler {
        Some(g) => g.is_grappling(),
        None => false,
    }
}

/// Horizontal speed exceeds the walking threshold.
pub fn walking_trigger(vel: &KinematicVelocity) -> (r: bool)
    requires
        vel.wf(),
    ensures
        r == (vel.x > WALK_THRESHOLD || vel.x < -WALK_THRESHOLD),
{
    let a: i64 = if vel.x < 0 { -vel.x } else { vel.x };
    a > WALK_THRESHOLD
}

/// Vertical speed is below the falling threshold.
pub fn falling_trigger(vel: &KinematicVelocity) -> (r: bool)
    ensures
        r == (vel.y < FALL_THRESHOLD),
{
    vel.y < FALL_THRESHOLD
}

/// The collision layer reported ground under the actor.
pub fn grounded_trigger(output: Option<&CollisionOutcome>) -> (r: bool)
    ensures
        r == match output {
            Some(o) => o.grounded,
            None => false,
        },
{
    match output {
        Some(o) => o.grounded,
        None => false,
    }
}

/// The jump controller is inside both of its grace windows.
pub fn jump_trigger(jumper: &Jumper) -> (r: bool)
    ensures
        r == jumper.spec_should_jump(),
{
    jumper.should_jump()
}

/// One re-evaluation of the transition rules, over plain trigger values,
/// in priority order. At most one transition fires per axis per tick; a
/// rule that moves a state across axes (landing, the jump handoff, going
/// airborne) consumes both axes it touches. The wall axis has no
/// transition rules of its own here; it is set by its owner and carried
/// through.
#[verifier::opaque]
pub open spec fn machine_step_s(
    st: MotionState,
    vx: int,
    vy: int,
    grounded: bool,
    grappling: bool,
    should_jump: bool,
) -> MotionState {
    // Landing: grounded while in an air state.
    let landed = grounded && st.air.is_some();
    let st1 = if landed {
        MotionState { ground: Some(GroundedState::Idle), air: None, ..st }
    } else {
        st
    };
    // Walking: a grounded state, not yet Walking, moving fast enough.
    let walks = !landed && st1.ground.is_some() && st1.ground != Some(GroundedState::Walking)
        && (vx > WALK_THRESHOLD || vx < -WALK_THRESHOLD);
    let st2 = if walks {
        MotionState { ground: Some(GroundedState::Walking), ..st1 }
    } else {
        st1
    };
    // Jump: any grounded state moves onto Jumping when eligible.
    let jumps = !landed && !walks && st2.ground.is_some() && should_jump;
    let st3 = if jumps {
        MotionState { ground: Some(GroundedState::Jumping), ..st2 }
    } else {
        st2
    };
    // Jump handoff: a ground-axis Jumping value becomes air-axis Rising.
    let hands_off = !landed && !walks && !jumps && st3.ground == Some(GroundedState::Jumping);
    let st4 = if hands_off {
        MotionState { ground: None, air: Some(InAirState::Rising), ..st3 }
    } else {
        st3
    };
    let ground_used = landed || walks || jumps || hands_off;
    let air_used = landed || hands_off;
    // Airborne, falling.
    let falls = !ground_used && !air_used && vy < FALL_THRESHOLD && !grounded
        && st4.air != Some(InAirState::Falling) && !grappling;
    let st5 = if falls {
        MotionState { ground: None, air: Some(InAirState::Falling), ..st4 }
    } else {
        st4
    };
    // Airborne, rising.
    let rises = !ground_used && !air_used && !falls && vy >= FALL_THRESHOLD && !grounded
        && st5.air != Some(InAirState::Rising) && !grappling;
    let st6 = if rises {
        MotionState { ground: None, air: Some(InAirState::Rising), ..st5 }
    } else {
        st5
    };
    // Grappling takes over the air axis.
    let air_used2 = air_used || falls || rises;
    let grapples = !air_used2 && grappling && st6.air.is_some()
        && st6.air != Some(InAirState::Grapple);
    if grapples {
        MotionState { air: Some(InAirState::Grapple), ..st6 }
    } else {
        st6
    }
}

/// Jump eligibility is honoured: with a grounded state held, no air state
/// to land from, and the walking transition not claiming the ground axis
/// this tick (already walking, or too slow to start), an eligible jump
/// moves the ground axis onto its jumping value, which the jump controller
/// then executes.
pub proof fn lemma_eligible_jump_is_ordered(
    st: MotionState,
    vx: int,
    vy: int,
    grounded: bool,
    grappling: bool,
)
    requires
        st.air.is_none(),
        st.ground.is_some(),
        st.ground == Some(GroundedState::Walking) || -WALK_THRESHOLD <= vx <= WALK_THRESHOLD,
    ensures
        machine_step_s(st, vx, vy, grounded, grappling, true).ground
            == Some(GroundedState::Jumping),
{
    reveal(machine_step_s);
}

/// The grounded and in-air axes stay mutually exclusive: an actor that
/// does not carry both a grounded and an air state never acquires both
/// from a re-evaluation. (The grounded axis is present exactly while the
/// actor is not classified airborne.)
pub proof fn lemma_axes_exclusive(
    st: MotionState,
    vx: int,
    vy: int,
    grounded: bool,
    grappling: bool,
    should_jump: bool,
)
    requires
        !(st.ground.is_some() && st.air.is_some()),
    ensures
        ({
            let r = machine_step_s(st, vx, vy, grounded, grappling, should_jump);
            !(r.ground.is_some() && r.air.is_some())
        }),
{
    reveal(machine_step_s);
}

/// Re-evaluate the motion state for the next tick, delegating eligibility
/// to the jump and grapple controllers' own queries.
pub fn machine_step(
    st: MotionState,
    vel: &KinematicVelocity,
    output: Option<&CollisionOutcome>,
    jumper: Option<&Jumper>,
    grappler: Option<&Grappler>,
) -> (r: MotionState)
    requires
        vel.wf(),
    ensures
        r == machine_step_s(
            st,
            vel.x as int,
            vel.y as int,
            match output {
                Some(o) => o.grounded,
                None => false,
            },
            match grappler {
                Some(g) => g.spec_is_grappling(),
                None => false,
            },
            match jumper {
                Some(j) => j.spec_should_jump(),
                None => false,
            },
        ),
{
    proof {
        reveal(machine_step_s);
    }
    let grounded: bool = grounded_trigger(output);
    let grappling: bool = grappling_trigger(grappler);
    let eligible: bool = match jumper {
        Some(j) => jump_trigger(j),
        None => false,
    };
    let mut st_now: MotionState = st;
    let mut ground_used: bool = false;
    let mut air_used: bool = false;

    if grounded && st_now.air.is_some() {
        st_now.ground = Some(GroundedState::Idle);
        st_now.air = None;
        ground_used = true;
        air_used = true;
    }

    let not_walking: bool = match st_now.ground {
        Some(s) => !matches!(s, GroundedState::Walking),
        None => false,
    };
    if !ground_used && not_walking && walking_trigger(vel) {
        st_now.ground = Some(GroundedState::Walking);
        ground_used = true;
    }

    if !ground_used && st_now.ground.is_some() && eligible {
        st_now.ground = Some(GroundedState::Jumping);
        ground_used = true;
    }

    let on_jumping: bool = match st_now.ground {
        Some(s) => matches!(s, GroundedState::Jumping),
        None => false,
    };
    if !ground_used && !air_used && on_jumping {
        st_now.ground = None;
        st_now.air = Some(InAirState::Rising);
        ground_used = true;
        air_used = true;
    }

    let not_falling_yet: bool = match st_now.air {
        Some(s) => !matches!(s, InAirState::Falling),
        None => true,
    };
    if !ground_used && !air_used && falling_trigger(vel) && !grounded && not_falling_yet
        && !grappling {
        st_now.ground = None;
        st_now.air = Some(InAirState::Falling);
        ground_used = true;
        air_used = true;
    }

    let not_rising_yet: bool = match st_now.air {
        Some(s) => !matches!(s, InAirState::Rising),
        None => true,
    };
    if !ground_used && !air_used && !falling_trigger(vel) && !grounded && not_rising_yet
        && !grappling {
        st_now.ground = None;
        st_now.air = Some(InAirState::Rising);
        ground_used = true;
        air_used = true;
    }

    let air_not_grapple: bool = match st_now.air {
        Some(s) => !matches!(s, InAirState::Grapple),
        None => false,
    };
    if !air_used && grappling && air_not_grapple {
        st_now.air = Some(InAirState::Grapple);
    }

    st_now
}

} // verus!
