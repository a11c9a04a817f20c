//! Terminal velocity clamp.
//!
//! Bounds the fall speed: the base floor for the vertical velocity is
//! modulated by a wall-slide multiplier while a wall is adjacent and by a
//! hold-down multiplier while the down input is held; a vertical velocity
//! below that floor is raised onto it. Runs after gravity accumulation.

use vstd::prelude::*;

use crate::input::{InputAction, InputSnapshot};
use crate::math::{muldiv, muldiv_s, LIMIT, SCALE};
use crate::velocity::KinematicVelocity;
use crate::wall_movement::WallMovement;

verus! {

/// Designer constants of the clamp: a (negative) base floor in milli-units
/// per second and two multipliers in thousandths.
#[derive(Clone, Copy, PartialEq, Eq, Structural, Debug)]
pub struct TerminalVelocity {
    pub base_val: i64,
    pub hold_down_multi: i64,
    pub wall_slide_multi: i64,
}

impl TerminalVelocity {
    pub open spec fn wf(self) -> bool {
        &&& -LIMIT <= self.base_val <= 0
        &&& 0 <= self.hold_down_multi <= LIMIT
        &&& 0 <= self.wall_slide_multi <= LIMIT
    }

    pub fn new(base_val: i64, hold_down_multi: i64, wall_slide_multi: i64)
        -> (r: TerminalVelocity)
        requires
            -LIMIT <= base_val <= 0,
            0 <= hold_down_multi <= LIMIT,
            0 <= wall_slide_multi <= LIMIT,
        ensures
            r.base_val == base_val,
            r.hold_down_multi == hold_down_multi,
            r.wall_slide_multi == wall_slide_multi,
            r.wf(),
    {
        TerminalVelocity { base_val, hold_down_multi, wall_slide_multi }
    }
}

/// The effective floor for the vertical velocity this tick.
pub open spec fn terminal_floor_s(t: TerminalVelocity, on_wall: bool, down_held: bool) -> int {
    let wall_multi: int = if on_wall { t.wall_slide_multi as int } else { SCALE as int };
    let down_multi: int = if down_held { t.hold_down_multi as int } else { SCALE as int };
    muldiv_s(muldiv_s(t.base_val as int, wall_multi, SCALE as int), down_multi, SCALE as int)
}

/// The vertical velocity after the clamp.
#[verifier::opaque]
pub open spec fn terminal_velocity_s(vy: int, t: TerminalVelocity, on_wall: bool,
    down_held: bool) -> int {
    let floor = terminal_floor_s(t, on_wall, down_held);
    if vy < floor { floor } else { vy }
}

/// Raise a too-fast fall onto the effective floor.
pub fn terminal_velocity(
    vel: &mut KinematicVelocity,
    terminal_vel: &TerminalVelocity,
    wall_mover: &WallMovement,
    input: &InputSnapshot,
)
    requires
        old(vel).wf(),
        terminal_vel.wf(),
    ensures
        final(vel).y == terminal_velocity_s(old(vel).y as int, *terminal_vel,
            wall_mover.current_wall.is_some(), input.spec_pressed(InputAction::Down)),
        final(vel).x == old(vel).x,
        final(vel).wf(),
{
    proof {
        reveal(terminal_velocity_s);
    }
    let wall_multi: i64 = if wall_mover.get_current_wall().is_some() {
        terminal_vel.wall_slide_multi
    } else {
        SCALE
    };
    let down_multi: i64 = if input.pressed(InputAction::Down) {
        terminal_vel.hold_down_multi
    } else {
        SCALE
    };
    let val: i64 = muldiv(muldiv(terminal_vel.base_val, wall_multi, SCALE), down_multi, SCALE);
    if vel.y < val {
        vel.y = val;
    }
}

} // verus!
