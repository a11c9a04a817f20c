//! The player actor and its simulation tick.
//!
//! The actor owns a position, the authoritative velocity, an explicit
//! struct of optional movement-capability subsystems, and one value on
//! each of the three motion state axes. `tick` runs the controllers in
//! their fixed order — gravity, horizontal movement, wall probe, jump,
//! grapple, slingshot, terminal velocity, landing, integrator — and then
//! re-evaluates the state machine for the next tick. A subsystem the actor
//! does not own is skipped, as is one whose external inputs (the collision
//! outcome) are missing this tick.

use vstd::prelude::*;

use crate::anchors::{points_wf, GrapplePoint};
use crate::grappler::{grappler_movement, grappler_movement_s, GrappleError, Grappler};
use crate::gravity::{kinematic_gravity, kinematic_gravity_s, KinematicGravity};
use crate::horizontal_movement::{horizontal_movement, horizontal_movement_s,
    HorizontalMovement};
use crate::input::{InputAction, InputSnapshot};
use crate::jumper::{jumper, jumper_sys_s, Jumper};
use crate::lander::{lander, lander_s, Lander};
use crate::math::{Vec2, DT_LIMIT, LIMIT};
use crate::slingshot::{slingshot, slingshot_s, Slingshot, SlingshotError};
use crate::state_machine::{machine_step, machine_step_s, MotionState};
use crate::terminal_velocity::{terminal_velocity, terminal_velocity_s, TerminalVelocity};
use crate::velocity::{kinematic_velocity, kinematic_velocity_s, CollisionOutcome,
    KinematicVelocity};
use crate::wall_movement::{wall_movement, wall_movement_s, WallHit, WallMovement};

verus! {

/// What one tick hands back to the caller: the displacement request for
/// the collision layer (when the actor has a collision-resolved body) and
/// the controllers' diagnostics.
#[derive(Clone, Copy, PartialEq, Eq, Structural, Debug)]
pub struct TickResult {
    pub request: Option<Vec2>,
    pub grapple_diag: Option<GrappleError>,
    pub slingshot_diag: Option<SlingshotError>,
}

/// The single controllable actor.
#[derive(Clone, Copy, PartialEq, Eq, Structural, Debug)]
pub struct Player {
    pub transform: Vec2,
    pub velocity: KinematicVelocity,
    /// The actor's motion is resolved by the collision layer; without it
    /// the integrator writes the transform directly.
    pub has_controller: bool,
    pub gravity_user: bool,
    pub gravity_scale: Option<i64>,
    pub horizontal: Option<HorizontalMovement>,
    pub terminal: Option<TerminalVelocity>,
    pub jumper: Option<Jumper>,
    pub wall: Option<WallMovement>,
    pub grappler: Option<Grappler>,
    pub slingshot: Option<Slingshot>,
    pub lander: Option<Lander>,
    pub state: MotionState,
}

impl Player {
    pub open spec fn wf(self) -> bool {
        &&& self.transform.wf()
        &&& self.velocity.wf()
        &&& match self.gravity_scale {
            Some(s) => -LIMIT <= s <= LIMIT,
            None => true,
        }
        &&& match self.horizontal {
            Some(h) => h.wf(),
            None => true,
        }
        &&& match self.terminal {
            Some(t) => t.wf(),
            None => true,
        }
        &&& match self.jumper {
            Some(j) => j.wf(),
            None => true,
        }
        &&& match self.wall {
            Some(w) => w.wf(),
            None => true,
        }
        &&& match self.grappler {
            Some(g) => g.wf(),
            None => true,
        }
        &&& match self.slingshot {
            Some(s) => s.wf(),
            None => true,
        }
        &&& match self.lander {
            Some(l) => l.wf(),
            None => true,
        }
    }

    /// A bare actor at a position: no capabilities attached yet, at rest,
    /// with every state axis inactive.
    pub fn new(transform: Vec2, has_controller: bool) -> (r: Player)
        requires
            transform.wf(),
        ensures
            r.transform == transform,
            r.velocity == (KinematicVelocity { x: 0, y: 0 }),
            r.has_controller == has_controller,
            !r.gravity_user,
            r.gravity_scale.is_none(),
            r.horizontal.is_none(),
            r.terminal.is_none(),
            r.jumper.is_none(),
            r.wall.is_none(),
            r.grappler.is_none(),
            r.slingshot.is_none(),
            r.lander.is_none(),
            r.state == (MotionState { ground: None, air: None, wall: None }),
            r.wf(),
    {
        Player {
            transform,
            velocity: KinematicVelocity { x: 0, y: 0 },
            has_controller,
            gravity_user: false,
            gravity_scale: None,
            horizontal: None,
            terminal: None,
            jumper: None,
            wall: None,
            grappler: None,
            slingshot: None,
            lander: None,
            state: MotionState { ground: None, air: None, wall: None },
        }
    }
}

/// The controller phases of one tick: gravity, horizontal movement, wall
/// probe, jump, grapple, slingshot, terminal velocity and landing, in that
/// order, each skipped when its subsystem or its external input is absent.
pub open spec fn tick_controllers_s(
    p: Player,
    gravity: KinematicGravity,
    input: InputSnapshot,
    output: Option<CollisionOutcome>,
    points: Seq<GrapplePoint>,
    right_hit: Option<WallHit>,
    left_hit: Option<WallHit>,
    dt: u64,
) -> (Player, Option<GrappleError>, Option<SlingshotError>) {
    // Gravity accumulation.
    let v1 = if p.gravity_user {
        kinematic_gravity_s(p.velocity, gravity.0, p.gravity_scale, dt)
    } else {
        p.velocity
    };
    // Horizontal movement, fed by the run axis and the grounded flag.
    let v2 = match (p.horizontal, output) {
        (Some(h), Some(o)) => KinematicVelocity {
            x: horizontal_movement_s(v1.x as int, h, o.grounded, input.run as int, dt as int)
                as i64,
            y: v1.y,
        },
        _ => v1,
    };
    // Wall probe.
    let w1 = match p.wall {
        Some(w) => Some(
            wall_movement_s(w, p.transform.x as int, p.state.ground.is_some(), right_hit,
                left_hit, dt),
        ),
        None => None,
    };
    // Jump controller.
    let (v3, j1, w2) = match (p.jumper, w1, output) {
        (Some(j), Some(w), Some(o)) => {
            let (vv, jj, ww) = jumper_sys_s(v2, j, w, p.state.ground, p.state.wall, input,
                o.grounded, dt);
            (vv, Some(jj), Some(ww))
        },
        _ => (v2, p.jumper, w1),
    };
    // Grapple controller.
    let (g1, v4, j2, gd) = match (p.grappler, j1) {
        (Some(g), Some(j)) => {
            let (gg, vv, jj, d) = grappler_movement_s(p.transform, g, v3, j, points, input, dt);
            (Some(gg), vv, Some(jj), d)
        },
        _ => (p.grappler, v3, j1, None),
    };
    // Slingshot controller.
    let (s1, v5, j3, sd) = match p.slingshot {
        Some(s) => {
            let (ss, vv, jj, d) = slingshot_s(s, p.transform, v4, points, j2, input, dt);
            (Some(ss), vv, jj, d)
        },
        None => (p.slingshot, v4, j2, None),
    };
    // Terminal velocity clamp.
    let v6 = match (p.terminal, w2) {
        (Some(t), Some(w)) => KinematicVelocity {
            x: v5.x,
            y: terminal_velocity_s(v5.y as int, t, w.current_wall.is_some(),
                input.spec_pressed(InputAction::Down)) as i64,
        },
        _ => v5,
    };
    // Landing controller.
    let (l1, v7) = match (p.lander, output) {
        (Some(l), Some(o)) => {
            let (ll, vv) = lander_s(l, v6, input, p.state.air, p.state.ground, o, dt);
            (Some(ll), vv)
        },
        _ => (p.lander, v6),
    };
    (
        Player {
            velocity: v7,
            jumper: j3,
            wall: w2,
            grappler: g1,
            slingshot: s1,
            lander: l1,
            ..p
        },
        gd,
        sd,
    )
}

/// One whole simulation tick: the controller phases, then the integrator,
/// then the state machine's re-evaluation for the next tick.
pub open spec fn tick_s(
    p: Player,
    gravity: KinematicGravity,
    input: InputSnapshot,
    output: Option<CollisionOutcome>,
    points: Seq<GrapplePoint>,
    right_hit: Option<WallHit>,
    left_hit: Option<WallHit>,
    dt: u64,
) -> (Player, TickResult) {
    let (p1, gd, sd) = tick_controllers_s(p, gravity, input, output, points, right_hit,
        left_hit, dt);
    let (v8, t1, request) = kinematic_velocity_s(p1.velocity, p1.transform, p1.has_controller,
        output, dt);
    let st = machine_step_s(
        p1.state,
        v8.x as int,
        v8.y as int,
        match output {
            Some(o) => o.grounded,
            None => false,
        },
        match p1.grappler {
            Some(g) => g.spec_is_grappling(),
            None => false,
        },
        match p1.jumper {
            Some(j) => j.spec_should_jump(),
            None => false,
        },
    );
    (
        Player { transform: t1, velocity: v8, state: st, ..p1 },
        TickResult { request, grapple_diag: gd, slingshot_diag: sd },
    )
}

impl Player {
    /// Run the controller phases of one tick.
    #[verifier::rlimit(100)]
    #[verifier::spinoff_prover]
    fn tick_controllers(
        &mut self,
        gravity: &KinematicGravity,
        input: &InputSnapshot,
        output: Option<CollisionOutcome>,
        points: &Vec<GrapplePoint>,
        right_hit: Option<WallHit>,
        left_hit: Option<WallHit>,
        dt: u64,
    ) -> (r: (Option<GrappleError>, Option<SlingshotError>))
        requires
            old(self).wf(),
            gravity.0.wf(),
            input.wf(),
            match output {
                Some(o) => o.wf(),
                None => true,
            },
            points_wf(points@),
            dt <= DT_LIMIT,
        ensures
            (*final(self), r.0, r.1) == tick_controllers_s(*old(self), *gravity, *input, output,
                points@, right_hit, left_hit, dt),
            final(self).wf(),
    {

        if self.gravity_user {
            kinematic_gravity(&mut self.velocity, gravity, self.gravity_scale, dt);
        }

        match (self.horizontal, output) {
            (Some(h), Some(o)) => {
                let run: i64 = input.clamped_value(InputAction::Run);
                horizontal_movement(&mut self.velocity, &h, &o, run, dt);
            },
            _ => {},
        }

        match self.wall {
            Some(mut w) => {
                wall_movement(&mut w, self.transform.x, self.state.ground.is_some(), right_hit,
                    left_hit, dt);
                self.wall = Some(w);
            },
            None => {},
        }

        match (self.jumper, self.wall, output) {
            (Some(mut j), Some(mut w), Some(o)) => {
                jumper(&mut self.velocity, &mut j, &mut w, self.state.ground, self.state.wall,
                    input, &o, dt);
                self.jumper = Some(j);
                self.wall = Some(w);
            },
            _ => {},
        }

        let mut grapple_diag: Option<GrappleError> = None;
        match (self.grappler, self.jumper) {
            (Some(mut g), Some(mut j)) => {
                grapple_diag = grappler_movement(self.transform, &mut g, &mut self.velocity,
                    input, &mut j, points, dt);
                self.grappler = Some(g);
                self.jumper = Some(j);
            },
            _ => {},
        }

        let mut slingshot_diag: Option<SlingshotError> = None;
        match self.slingshot {
            Some(mut s) => {
                slingshot_diag = slingshot(&mut s, self.transform, input, &mut self.velocity,
                    &mut self.jumper, points, dt);
                self.slingshot = Some(s);
            },
            None => {},
        }

        match (self.terminal, self.wall) {
            (Some(t), Some(w)) => {
                terminal_velocity(&mut self.velocity, &t, &w, input);
            },
            _ => {},
        }

        match (self.lander, output) {
            (Some(mut l), Some(o)) => {
                lander(&mut l, &mut self.velocity, input, self.state.air, self.state.ground,
                    &o, dt);
                self.lander = Some(l);
            },
            _ => {},
        }

        (grapple_diag, slingshot_diag)
    }

    /// Advance the actor by one simulation step of `dt` milliseconds.
    /// `output` is the collision layer's report for the previous tick's
    /// request, `points` the anchor registry, and the two hits the results
    /// of the wall probe's right and left casts.
    #[verifier::rlimit(100)]
    #[verifier::spinoff_prover]
    pub fn tick(
        &mut self,
        gravity: &KinematicGravity,
        input: &InputSnapshot,
        output: Option<CollisionOutcome>,
        points: &Vec<GrapplePoint>,
        right_hit: Option<WallHit>,
        left_hit: Option<WallHit>,
        dt: u64,
    ) -> (r: TickResult)
        requires
            old(self).wf(),
            gravity.0.wf(),
            input.wf(),
            match output {
                Some(o) => o.wf(),
                None => true,
            },
            points_wf(points@),
            dt <= DT_LIMIT,
        ensures
            (*final(self), r) == tick_s(*old(self), *gravity, *input, output, points@,
                right_hit, left_hit, dt),
            final(self).wf(),
    {
        let (grapple_diag, slingshot_diag) = self.tick_controllers(gravity, input, output,
            points, right_hit, left_hit, dt);

        let out_opt: Option<CollisionOutcome> = output;
        let request = kinematic_velocity(&mut self.velocity, &mut self.transform,
            self.has_controller, &out_opt, dt);

        let out_ref: Option<&CollisionOutcome> = match &out_opt {
            Some(o) => Some(o),
            None => None,
        };
        let jumper_ref: Option<&Jumper> = match &self.jumper {
            Some(j) => Some(j),
            None => None,
        };
        let grappler_ref: Option<&Grappler> = match &self.grappler {
            Some(g) => Some(g),
            None => None,
        };
        self.state = machine_step(self.state, &self.velocity, out_ref, jumper_ref,
            grappler_ref);

        TickResult { request, grapple_diag, slingshot_diag }
    }
}

} // verus!
