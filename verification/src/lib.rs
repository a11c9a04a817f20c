//! Player-movement and state-resolution core of a 2D platformer.
//!
//! A single kinematic actor is driven by discrete player intents (run, jump,
//! grapple, slingshot, land). Every tick the controllers read and mutate one
//! shared velocity vector, the integrator turns it into a displacement request
//! for an external collision layer, and a three-axis motion state machine
//! re-evaluates which controllers are eligible next tick.
//!
//! All quantities are fixed-point integers: lengths and velocities in
//! milli-units (1 unit = 1000), dimensionless multipliers in thousandths,
//! times in milliseconds. The collision layer, the input source and the
//! anchor registry are external collaborators; they hand the library plain
//! values and take plain values back.

use vstd::prelude::*;

pub mod anchors;
pub mod grappler;
pub mod gravity;
pub mod horizontal_movement;
pub mod input;
pub mod jumper;
pub mod lander;
pub mod math;
pub mod player;
pub mod slingshot;
pub mod state_machine;
pub mod terminal_velocity;
pub mod timer;
pub mod velocity;
pub mod wall_movement;
