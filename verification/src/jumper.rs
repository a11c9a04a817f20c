//! Jump controller.
//!
//! A timer-driven state machine: a coyote window keeps a jump available
//! shortly after the ground is left, a jump buffer honours a press shortly
//! before landing, and a one-shot release latch gives variable jump height
//! by cutting the remaining upward velocity once when the jump input is
//! released mid-ascent. The jump itself fires when the motion state machine
//! moves a state axis onto its jumping value.

use vstd::prelude::*;

use crate::input::{InputAction, InputSnapshot};
use crate::math::{muldiv, muldiv_s, sat_add, sat_add_s, Vec2, DT_LIMIT, LIMIT, SCALE};
use crate::state_machine::{GroundedState, WallState};
use crate::timer::Timer;
use crate::velocity::{CollisionOutcome, KinematicVelocity};
use crate::wall_movement::{walljump_s, walljump_vel_s, WallMovement};

verus! {

/// Jump constants and grace-window state. Forces are milli-units per
/// second, multipliers thousandths.
#[derive(Clone, Copy, PartialEq, Eq, Structural, Debug)]
pub struct Jumper {
    pub jump_force: i64,
    pub x_multi: i64,
    pub release_multi: i64,
    pub can_release: bool,
    pub coyote_time: Timer,
    pub jump_buffer: Timer,
}

impl Jumper {
    pub open spec fn wf(self) -> bool {
        &&& 0 <= self.jump_force <= LIMIT
        &&& 0 <= self.x_multi <= LIMIT
        &&& 0 <= self.release_multi <= LIMIT
        &&& self.coyote_time.wf()
        &&& self.jump_buffer.wf()
    }

    pub fn new(
        jump_force: i64,
        release_multi: i64,
        x_multi: i64,
        coyote_time_ms: u64,
        jump_buffer_time_ms: u64,
    ) -> (r: Jumper)
        requires
            0 <= jump_force <= LIMIT,
            0 <= release_multi <= LIMIT,
            0 <= x_multi <= LIMIT,
        ensures
            r.jump_force == jump_force,
            r.release_multi == release_multi,
            r.x_multi == x_multi,
            !r.can_release,
            r.coyote_time.duration_ms == coyote_time_ms,
            r.coyote_time.elapsed_ms == 0,
            r.jump_buffer.duration_ms == jump_buffer_time_ms,
            r.jump_buffer.elapsed_ms == 0,
            r.wf(),
    {
        Jumper {
            jump_force,
            release_multi,
            x_multi,
            coyote_time: Timer::new(coyote_time_ms),
            jump_buffer: Timer::new(jump_buffer_time_ms),
            can_release: false,
        }
    }

    /// Inside both grace windows: the ground was left no longer than the
    /// coyote window ago, and a jump press is buffered.
    pub open spec fn spec_should_jump(self) -> bool {
        !self.coyote_time.spec_finished() && !self.jump_buffer.spec_finished()
    }

    pub fn should_jump(&self) -> (r: bool)
        ensures
            r == self.spec_should_jump(),
    {
        !self.coyote_time.finished() && !self.jump_buffer.finished()
    }

    /// Wall-jump eligibility: the wall coyote window replaces the ground
    /// one.
    pub open spec fn spec_should_walljump(self, wall_mover: WallMovement) -> bool {
        !wall_mover.coyote_time.timer.spec_finished() && !self.jump_buffer.spec_finished()
    }

    pub fn should_walljump(&self, wall_mover: &WallMovement) -> (r: bool)
        ensures
            r == self.spec_should_walljump(*wall_mover),
    {
        !wall_mover.coyote_time.timer.finished() && !self.jump_buffer.finished()
    }

    pub fn coyote_timer_remaining(&self) -> (r: u64)
        requires
            self.coyote_time.wf(),
        ensures
            r == self.coyote_time.duration_ms - self.coyote_time.elapsed_ms,
    {
        self.coyote_time.remaining_ms()
    }

    pub fn jump_buffer_remaining(&self) -> (r: u64)
        requires
            self.jump_buffer.wf(),
        ensures
            r == self.jump_buffer.duration_ms - self.jump_buffer.elapsed_ms,
    {
        self.jump_buffer.remaining_ms()
    }

    /// Takes the current velocity and returns what the velocity will be
    /// after the jump: the jump force added straight up (the horizontal
    /// multiplier scales a zero horizontal impulse, so the horizontal
    /// velocity carries over). Consumes both grace windows so the jump
    /// cannot immediately re-trigger, and arms the release latch.
    pub fn jump(&mut self, current_vel: Vec2) -> (r: Vec2)
        requires
            old(self).wf(),
            current_vel.wf(),
        ensures
            final(self).coyote_time.elapsed_ms == old(self).coyote_time.duration_ms,
            final(self).coyote_time.duration_ms == old(self).coyote_time.duration_ms,
            final(self).jump_buffer.elapsed_ms == old(self).jump_buffer.duration_ms,
            final(self).jump_buffer.duration_ms == old(self).jump_buffer.duration_ms,
            final(self).can_release,
            final(self).jump_force == old(self).jump_force,
            final(self).x_multi == old(self).x_multi,
            final(self).release_multi == old(self).release_multi,
            r == jump_vel_s(current_vel, old(self).jump_force as int),
            (*final(self), r) == jump_s(*old(self), current_vel),
            final(self).wf(),
            r.wf(),
    {
        self.coyote_time.finish();
        self.jump_buffer.finish();
        self.can_release = true;
        Vec2 { x: current_vel.x, y: sat_add(current_vel.y, self.jump_force) }
    }
}

/// The velocity after a ground jump: the jump force added vertically.
pub open spec fn jump_vel_s(v: Vec2, jump_force: int) -> Vec2 {
    Vec2 { x: v.x, y: sat_add_s(v.y as int, jump_force) as i64 }
}

/// A jump as a whole: both grace windows consumed, the release latch
/// armed, and the jump force added to the velocity.
pub open spec fn jump_s(j: Jumper, v: Vec2) -> (Jumper, Vec2) {
    (
        Jumper {
            coyote_time: Timer {
                duration_ms: j.coyote_time.duration_ms,
                elapsed_ms: j.coyote_time.duration_ms,
            },
            jump_buffer: Timer {
                duration_ms: j.jump_buffer.duration_ms,
                elapsed_ms: j.jump_buffer.duration_ms,
            },
            can_release: true,
            ..j
        },
        jump_vel_s(v, j.jump_force as int),
    )
}

/// The vertical velocity after the variable-height release check: cut by
/// the release multiplier exactly when the actor is ascending, the jump
/// input is no longer held, and the latch is armed.
pub open spec fn release_cut_fires(vy: int, jumper: Jumper, input: InputSnapshot) -> bool {
    vy > 0 && input.spec_released(InputAction::Jump) && jumper.can_release
}

/// The jumper's timers after one tick: the coyote window is held open on
/// the ground (outside the jump transition itself), the jump buffer is
/// restarted by a jump press, and the release latch disarms when the cut
/// fires.
pub open spec fn jumper_timers_s(
    vel: KinematicVelocity,
    jumper: Jumper,
    state: Option<GroundedState>,
    input: InputSnapshot,
    grounded: bool,
    dt: u64,
) -> (KinematicVelocity, Jumper) {
    let cut = release_cut_fires(vel.y as int, jumper, input);
    let vy = if cut {
        muldiv_s(vel.y as int, jumper.release_multi as int, SCALE as int)
    } else {
        vel.y as int
    };
    let coyote0 = jumper.coyote_time.tick_s(dt);
    let coyote = if grounded && (state.is_some() && state != Some(GroundedState::Jumping)) {
        Timer { duration_ms: coyote0.duration_ms, elapsed_ms: 0 }
    } else {
        coyote0
    };
    let buffer0 = jumper.jump_buffer.tick_s(dt);
    let buffer = if input.spec_just_pressed(InputAction::Jump) {
        Timer { duration_ms: buffer0.duration_ms, elapsed_ms: 0 }
    } else {
        buffer0
    };
    (
        KinematicVelocity { x: vel.x, y: vy as i64 },
        Jumper {
            can_release: if cut { false } else { jumper.can_release },
            coyote_time: coyote,
            jump_buffer: buffer,
            ..jumper
        },
    )
}

/// Run the release cut and advance both grace windows for this tick.
pub fn jumper_timers(
    vel: &mut KinematicVelocity,
    jumper: &mut Jumper,
    state: Option<GroundedState>,
    input: &InputSnapshot,
    output: &CollisionOutcome,
    dt: u64,
)
    requires
        old(vel).wf(),
        old(jumper).wf(),
        dt <= DT_LIMIT,
    ensures
        (*final(vel), *final(jumper)) == jumper_timers_s(*old(vel), *old(jumper), state, *input,
            output.grounded, dt),
        final(vel).wf(),
        final(jumper).wf(),
{
    if vel.y > 0 && input.released(InputAction::Jump) && jumper.can_release {
        jumper.can_release = false;
        vel.y = muldiv(vel.y, jumper.release_multi, SCALE);
    }
    jumper.coyote_time.tick(dt);
    let not_jumping: bool = match state {
        Some(s) => !matches!(s, GroundedState::Jumping),
        None => false,
    };
    if output.grounded && not_jumping {
        jumper.coyote_time.reset();
    }
    jumper.jump_buffer.tick(dt);
    if input.just_pressed(InputAction::Jump) {
        jumper.jump_buffer.reset();
    }
}

/// The jump-execution phase as a whole: a ground jump while the ground
/// axis is on its jumping value, else a wall jump while the wall axis is,
/// else nothing.
pub open spec fn jumping_s(
    j: Jumper,
    w: WallMovement,
    v: KinematicVelocity,
    grounded_state: Option<GroundedState>,
    wall_state: Option<WallState>,
) -> (Jumper, WallMovement, KinematicVelocity) {
    if grounded_state == Some(GroundedState::Jumping) {
        let (j2, v2) = jump_s(j, Vec2 { x: v.x, y: v.y });
        (j2, w, KinematicVelocity { x: v2.x, y: v2.y })
    } else if wall_state == Some(WallState::Jumping) {
        let (w2, j2, v2) = walljump_s(w, j, Vec2 { x: v.x, y: v.y });
        (j2, w2, KinematicVelocity { x: v2.x, y: v2.y })
    } else {
        (j, w, v)
    }
}

/// One jump-controller tick as a whole: timers and release cut, then the
/// ordered jump.
#[verifier::opaque]
pub open spec fn jumper_sys_s(
    v: KinematicVelocity,
    j: Jumper,
    w: WallMovement,
    grounded_state: Option<GroundedState>,
    wall_state: Option<WallState>,
    input: InputSnapshot,
    grounded: bool,
    dt: u64,
) -> (KinematicVelocity, Jumper, WallMovement) {
    let (v1, j1) = jumper_timers_s(v, j, grounded_state, input, grounded, dt);
    let (j2, w2, v2) = jumping_s(j1, w, v1, grounded_state, wall_state);
    (v2, j2, w2)
}

/// Fire the jump the state machine ordered: a ground jump while the ground
/// axis is on its jumping value, else a wall jump while the wall axis is.
pub fn jumping(
    jumper: &mut Jumper,
    wall_mover: &mut WallMovement,
    vel: &mut KinematicVelocity,
    grounded_state: Option<GroundedState>,
    wall_state: Option<WallState>,
)
    requires
        old(jumper).wf(),
        old(wall_mover).wf(),
        old(vel).wf(),
    ensures
        grounded_state == Some(GroundedState::Jumping) ==> {
            let r = jump_vel_s(Vec2 { x: old(vel).x, y: old(vel).y }, old(jumper).jump_force as int);
            &&& final(vel).x == r.x
            &&& final(vel).y == r.y
            &&& final(jumper).can_release
            &&& final(jumper).coyote_time.spec_finished()
            &&& final(jumper).jump_buffer.spec_finished()
            &&& *final(wall_mover) == *old(wall_mover)
        },
        grounded_state != Some(GroundedState::Jumping) && wall_state == Some(WallState::Jumping)
            ==> {
            let r = walljump_vel_s(Vec2 { x: old(vel).x, y: old(vel).y },
                old(wall_mover).walljump_force, old(wall_mover).coyote_time.side as int);
            &&& final(vel).x == r.x
            &&& final(vel).y == r.y
            &&& final(jumper).can_release
            &&& final(jumper).jump_buffer.spec_finished()
            &&& final(jumper).coyote_time == old(jumper).coyote_time
            &&& final(wall_mover).coyote_time.timer.spec_finished()
            &&& final(wall_mover).current_wall == old(wall_mover).current_wall
        },
        grounded_state != Some(GroundedState::Jumping) && wall_state != Some(WallState::Jumping)
            ==> {
            &&& *final(vel) == *old(vel)
            &&& *final(jumper) == *old(jumper)
            &&& *final(wall_mover) == *old(wall_mover)
        },
        final(jumper).jump_force == old(jumper).jump_force,
        final(jumper).x_multi == old(jumper).x_multi,
        final(jumper).release_multi == old(jumper).release_multi,
        (*final(jumper), *final(wall_mover), *final(vel)) == jumping_s(*old(jumper),
            *old(wall_mover), *old(vel), grounded_state, wall_state),
        final(vel).wf(),
        final(jumper).wf(),
        final(wall_mover).wf(),
{
    let is_ground_jump: bool = match grounded_state {
        Some(s) => matches!(s, GroundedState::Jumping),
        None => false,
    };
    if is_ground_jump {
        let v = jumper.jump(vel.to_vec2());
        vel.x = v.x;
        vel.y = v.y;
        return;
    }
    let is_wall_jump: bool = match wall_state {
        Some(s) => matches!(s, WallState::Jumping),
        None => false,
    };
    if is_wall_jump {
        let v = wall_mover.walljump(jumper, vel.to_vec2());
        vel.x = v.x;
        vel.y = v.y;
        return;
    }
}

/// One jump-controller tick: timers and release cut first, then any jump
/// the state machine ordered this tick.
pub fn jumper(
    vel: &mut KinematicVelocity,
    jumper_state: &mut Jumper,
    wall_mover: &mut WallMovement,
    grounded_state: Option<GroundedState>,
    wall_state: Option<WallState>,
    input: &InputSnapshot,
    output: &CollisionOutcome,
    dt: u64,
)
    requires
        old(vel).wf(),
        old(jumper_state).wf(),
        old(wall_mover).wf(),
        dt <= DT_LIMIT,
    ensures
        ({
            let (v1, j1) = jumper_timers_s(*old(vel), *old(jumper_state), grounded_state, *input,
                output.grounded, dt);
            if grounded_state == Some(GroundedState::Jumping) {
                let r = jump_vel_s(Vec2 { x: v1.x, y: v1.y }, j1.jump_force as int);
                &&& final(vel).x == r.x
                &&& final(vel).y == r.y
                &&& final(jumper_state).can_release
                &&& final(jumper_state).coyote_time.spec_finished()
                &&& final(jumper_state).jump_buffer.spec_finished()
            } else if wall_state == Some(WallState::Jumping) {
                let r = walljump_vel_s(Vec2 { x: v1.x, y: v1.y },
                    old(wall_mover).walljump_force, old(wall_mover).coyote_time.side as int);
                &&& final(vel).x == r.x
                &&& final(vel).y == r.y
                &&& final(jumper_state).can_release
                &&& final(jumper_state).jump_buffer.spec_finished()
                &&& final(wall_mover).coyote_time.timer.spec_finished()
            } else {
                &&& *final(vel) == v1
                &&& *final(jumper_state) == j1
                &&& *final(wall_mover) == *old(wall_mover)
            }
        }),
        (*final(vel), *final(jumper_state), *final(wall_mover)) == jumper_sys_s(*old(vel),
            *old(jumper_state), *old(wall_mover), grounded_state, wall_state, *input,
            output.grounded, dt),
        final(vel).wf(),
        final(jumper_state).wf(),
        final(wall_mover).wf(),
{
    proof {
        reveal(jumper_sys_s);
    }
    jumper_timers(vel, jumper_state, grounded_state, input, output, dt);
    jumping(jumper_state, wall_mover, vel, grounded_state, wall_state);
}

/// Jump grace windows: with the jump press just buffered (as a press resets
/// the buffer) and the ground just left (as standing on ground resets the
/// coyote window), the jump stays eligible under any run of ticks exactly
/// while the time since the press stays below the jump-buffer duration and
/// the time since the ground was left stays below the coyote duration;
/// outside either window the eligibility is gone.
pub proof fn lemma_jump_grace_windows(j: Jumper, since_press: Seq<u64>, since_ground: Seq<u64>)
    requires
        j.wf(),
        j.coyote_time.elapsed_ms == 0,
        j.jump_buffer.elapsed_ms == 0,
    ensures
        ({
            let later = Jumper {
                coyote_time: crate::timer::tick_all_s(j.coyote_time, since_ground),
                jump_buffer: crate::timer::tick_all_s(j.jump_buffer, since_press),
                ..j
            };
            later.spec_should_jump() <==> {
                &&& crate::timer::sum_s(since_ground) < j.coyote_time.duration_ms
                &&& crate::timer::sum_s(since_press) < j.jump_buffer.duration_ms
            }
        }),
{
    crate::timer::lemma_timer_window(j.coyote_time, since_ground);
    crate::timer::lemma_timer_window(j.jump_buffer, since_press);
}

/// Variable height, one cut per jump: with the latch armed, a release tick
/// while ascending multiplies the vertical velocity by the release
/// multiplier and disarms the latch; an immediately repeated release tick
/// leaves the velocity untouched until the next jump re-arms the latch.
pub proof fn lemma_release_cut_once(
    vel: KinematicVelocity,
    jumper: Jumper,
    state: Option<GroundedState>,
    input: InputSnapshot,
    grounded: bool,
    dt1: u64,
    dt2: u64,
)
    requires
        vel.wf(),
        jumper.wf(),
        vel.y > 0,
        input.spec_released(InputAction::Jump),
        jumper.can_release,
    ensures
        ({
            let (v1, j1) = jumper_timers_s(vel, jumper, state, input, grounded, dt1);
            &&& v1.y == muldiv_s(vel.y as int, jumper.release_multi as int, SCALE as int)
            &&& !j1.can_release
        }),
        ({
            let (v1, j1) = jumper_timers_s(vel, jumper, state, input, grounded, dt1);
            let (v2, _) = jumper_timers_s(v1, j1, state, input, grounded, dt2);
            v2.y == v1.y
        }),
{
}

} // verus!
