//! Wall proximity detector and wall-jump state.
//!
//! Each tick the detector clears its wall while the actor is grounded, and
//! otherwise reads the results of two horizontal shape casts (right first,
//! then left) performed by the external collision layer. A hit records the
//! wall entity and on which side it stands: -1 left of the actor's centre,
//! +1 right of it. A per-side coyote timer resets while a wall is detected,
//! feeding the jump controller's wall-jump grace window.

use vstd::prelude::*;

use crate::jumper::Jumper;
use crate::math::{muldiv, sat_add, sat_add_s, Vec2, DT_LIMIT, LIMIT};
use crate::timer::Timer;

verus! {

/// Fallback probe width in milli-units when the actor has no sprite size.
pub const DEFAULT_PROBE_WIDTH: i64 = 25_000;

/// Fallback probe height in milli-units when the actor has no sprite size.
pub const DEFAULT_PROBE_HEIGHT: i64 = 50_000;

/// One shape-cast hit from the collision layer: the entity hit and the
/// horizontal position of the contact point.
#[derive(Clone, Copy, PartialEq, Eq, Structural, Debug)]
pub struct WallHit {
    pub entity: u64,
    pub witness_x: i64,
}

/// The horizontal shape cast the detector wants from the collision layer:
/// a box of `half_extents`, centred at `origin`, swept sideways out to
/// `max_toi`, excluding the actor itself and dynamic bodies.
#[derive(Clone, Copy, PartialEq, Eq, Structural, Debug)]
pub struct ProbeRequest {
    pub origin: Vec2,
    pub half_extents: Vec2,
    pub max_toi: i64,
}

/// A detected wall: the entity and which side of the actor it stands on
/// (-1 left, +1 right).
#[derive(Clone, Copy, PartialEq, Eq, Structural, Debug)]
pub struct Wall {
    pub entity: u64,
    pub side: i8,
}

/// The vertical window along the actor's height from which the probe is
/// cast, in milli-units relative to the actor's centre.
#[derive(Clone, Copy, PartialEq, Eq, Structural, Debug)]
pub struct YRange {
    pub low: i64,
    pub high: i64,
}

/// The wall coyote timer together with the side of the wall it remembers.
#[derive(Clone, Copy, PartialEq, Eq, Structural, Debug)]
pub struct SidedTimer {
    pub timer: Timer,
    pub side: i8,
}

/// Wall-jump constants and the detector's per-tick state.
#[derive(Clone, Copy, PartialEq, Eq, Structural, Debug)]
pub struct WallMovement {
    pub walljump_force: Vec2,
    pub walljump_y_range: YRange,
    pub max_wall_toi: i64,
    pub coyote_time: SidedTimer,
    pub current_wall: Option<Wall>,
}

impl WallMovement {
    pub open spec fn wf(self) -> bool {
        &&& self.walljump_force.wf()
        &&& -LIMIT <= self.walljump_y_range.low <= LIMIT
        &&& -LIMIT <= self.walljump_y_range.high <= LIMIT
        &&& 0 <= self.max_wall_toi <= LIMIT
        &&& self.coyote_time.timer.wf()
        &&& -1 <= self.coyote_time.side <= 1
        &&& match self.current_wall {
            Some(w) => w.side == -1i8 || w.side == 1i8,
            None => true,
        }
    }

    pub fn new(
        walljump_force: Vec2,
        walljump_y_range: YRange,
        max_wall_toi: i64,
        coyote_time_ms: u64,
    ) -> (r: WallMovement)
        requires
            walljump_force.wf(),
            -LIMIT <= walljump_y_range.low <= LIMIT,
            -LIMIT <= walljump_y_range.high <= LIMIT,
            0 <= max_wall_toi <= LIMIT,
        ensures
            r.walljump_force == walljump_force,
            r.walljump_y_range == walljump_y_range,
            r.max_wall_toi == max_wall_toi,
            r.coyote_time.timer.duration_ms == coyote_time_ms,
            r.coyote_time.timer.elapsed_ms == 0,
            r.coyote_time.side == 0i8,
            r.current_wall.is_none(),
            r.wf(),
    {
        WallMovement {
            walljump_force,
            walljump_y_range,
            max_wall_toi,
            current_wall: None,
            coyote_time: SidedTimer { timer: Timer::new(coyote_time_ms), side: 0 },
        }
    }

    /// Time left in the wall-jump grace window.
    pub fn coyote_timer_remaining(&self) -> (r: u64)
        requires
            self.coyote_time.timer.wf(),
        ensures
            r == self.coyote_time.timer.duration_ms - self.coyote_time.timer.elapsed_ms,
    {
        self.coyote_time.timer.remaining_ms()
    }

    /// Execute a wall jump: consume the wall coyote window and the jump
    /// buffer, arm the release latch, and add the wall-jump force with its
    /// horizontal sign flipped away from the remembered wall side.
    pub fn walljump(&mut self, jumper: &mut Jumper, current_vel: Vec2) -> (r: Vec2)
        requires
            old(self).wf(),
            old(jumper).wf(),
            current_vel.wf(),
        ensures
            final(self).coyote_time.timer.elapsed_ms == old(self).coyote_time.timer.duration_ms,
            final(self).coyote_time.timer.duration_ms == old(self).coyote_time.timer.duration_ms,
            final(self).coyote_time.side == old(self).coyote_time.side,
            final(self).walljump_force == old(self).walljump_force,
            final(self).walljump_y_range == old(self).walljump_y_range,
            final(self).max_wall_toi == old(self).max_wall_toi,
            final(self).current_wall == old(self).current_wall,
            final(jumper).jump_buffer.elapsed_ms == old(jumper).jump_buffer.duration_ms,
            final(jumper).jump_buffer.duration_ms == old(jumper).jump_buffer.duration_ms,
            final(jumper).can_release,
            final(jumper).jump_force == old(jumper).jump_force,
            final(jumper).x_multi == old(jumper).x_multi,
            final(jumper).release_multi == old(jumper).release_multi,
            final(jumper).coyote_time == old(jumper).coyote_time,
            r == walljump_vel_s(current_vel, old(self).walljump_force,
                old(self).coyote_time.side as int),
            (*final(self), *final(jumper), r) == walljump_s(*old(self), *old(jumper),
                current_vel),
            final(self).wf(),
            final(jumper).wf(),
            r.wf(),
    {
        let mut t = self.coyote_time.timer;
        t.finish();
        self.coyote_time = SidedTimer { timer: t, side: self.coyote_time.side };
        jumper.jump_buffer.finish();
        jumper.can_release = true;
        let side: i8 = self.coyote_time.side;
        let fx: i64 = if side == 1 {
            -self.walljump_force.x
        } else if side == -1 {
            self.walljump_force.x
        } else {
            0
        };
        Vec2 {
            x: sat_add(current_vel.x, fx),
            y: sat_add(current_vel.y, self.walljump_force.y),
        }
    }

    pub fn get_current_wall(&self) -> (r: Option<Wall>)
        ensures
            r == self.current_wall,
    {
        self.current_wall
    }
}

/// The velocity after a wall jump: the wall-jump force added, with its
/// horizontal component pointing away from wall side `side`.
pub open spec fn walljump_vel_s(v: Vec2, force: Vec2, side: int) -> Vec2 {
    let fx: int = if side == 1 {
        -force.x as int
    } else if side == -1 {
        force.x as int
    } else {
        0int
    };
    Vec2 {
        x: sat_add_s(v.x as int, fx) as i64,
        y: sat_add_s(v.y as int, force.y as int) as i64,
    }
}

/// Which side of the actor a contact point lies on.
pub open spec fn wall_side_s(witness_x: int, pos_x: int) -> i8 {
    if witness_x < pos_x { -1i8 } else { 1i8 }
}

/// The detected wall for this tick: none while grounded, else the first of
/// the right-then-left cast results.
pub open spec fn get_walls_s(
    grounded_state_present: bool,
    pos_x: int,
    right_hit: Option<WallHit>,
    left_hit: Option<WallHit>,
) -> Option<Wall> {
    if grounded_state_present {
        None
    } else {
        match right_hit {
            Some(h) => Some(Wall { entity: h.entity, side: wall_side_s(h.witness_x as int, pos_x) }),
            None => match left_hit {
                Some(h) => Some(
                    Wall { entity: h.entity, side: wall_side_s(h.witness_x as int, pos_x) },
                ),
                None => None,
            },
        }
    }
}

/// Magnitude of an integer.
pub open spec fn abs_s(x: int) -> int {
    if x < 0 { -x } else { x }
}

/// The shape cast the detector asks the collision layer to run: a probe box
/// centred on the configured vertical offset window.
pub fn probe_request(wall_mover: &WallMovement, pos: Vec2, sprite_size: Option<Vec2>)
    -> (r: ProbeRequest)
    requires
        wall_mover.wf(),
        pos.wf(),
        match sprite_size {
            Some(s) => s.wf(),
            None => true,
        },
    ensures
        r.origin.x == pos.x,
        r.origin.y == sat_add_s(
            pos.y as int,
            crate::math::tdiv(
                wall_mover.walljump_y_range.low + wall_mover.walljump_y_range.high,
                2,
            ),
        ),
        ({
            let w: int = match sprite_size {
                Some(s) => s.x as int,
                None => DEFAULT_PROBE_WIDTH as int,
            };
            let h: int = match sprite_size {
                Some(_) => abs_s(wall_mover.walljump_y_range.low as int)
                    + abs_s(wall_mover.walljump_y_range.high as int),
                None => DEFAULT_PROBE_HEIGHT as int,
            };
            &&& r.half_extents.x == crate::math::muldiv_s(w, 1, 2)
            &&& r.half_extents.y == crate::math::muldiv_s(h, 1, 2)
        }),
        r.max_toi == wall_mover.max_wall_toi,
{
    let mid: i64 = muldiv(
        wall_mover.walljump_y_range.low + wall_mover.walljump_y_range.high,
        1,
        2,
    );
    let w: i64;
    let h: i64;
    match sprite_size {
        Some(s) => {
            let a0: i64 = if wall_mover.walljump_y_range.low < 0 {
                -wall_mover.walljump_y_range.low
            } else {
                wall_mover.walljump_y_range.low
            };
            let a1: i64 = if wall_mover.walljump_y_range.high < 0 {
                -wall_mover.walljump_y_range.high
            } else {
                wall_mover.walljump_y_range.high
            };
            w = s.x;
            h = a0 + a1;
        },
        None => {
            w = DEFAULT_PROBE_WIDTH;
            h = DEFAULT_PROBE_HEIGHT;
        },
    }
    ProbeRequest {
        origin: Vec2 { x: pos.x, y: sat_add(pos.y, mid) },
        half_extents: Vec2 { x: muldiv(w, 1, 2), y: muldiv(h, 1, 2) },
        max_toi: wall_mover.max_wall_toi,
    }
}

/// Interpret this tick's cast results: grounded clears the wall, otherwise
/// the nearest hit (right cast first) becomes the current wall.
pub fn get_walls(
    wall_mover: &mut WallMovement,
    pos_x: i64,
    grounded_state_present: bool,
    right_hit: Option<WallHit>,
    left_hit: Option<WallHit>,
)
    requires
        old(wall_mover).wf(),
    ensures
        final(wall_mover).current_wall == get_walls_s(grounded_state_present, pos_x as int,
            right_hit, left_hit),
        final(wall_mover).walljump_force == old(wall_mover).walljump_force,
        final(wall_mover).walljump_y_range == old(wall_mover).walljump_y_range,
        final(wall_mover).max_wall_toi == old(wall_mover).max_wall_toi,
        final(wall_mover).coyote_time == old(wall_mover).coyote_time,
        final(wall_mover).wf(),
{
    if grounded_state_present {
        wall_mover.current_wall = None;
        return;
    }
    match right_hit {
        Some(h) => {
            let side: i8 = if h.witness_x < pos_x { -1 } else { 1 };
            wall_mover.current_wall = Some(Wall { entity: h.entity, side });
        },
        None => match left_hit {
            Some(h) => {
                let side: i8 = if h.witness_x < pos_x { -1 } else { 1 };
                wall_mover.current_wall = Some(Wall { entity: h.entity, side });
            },
            None => {
                wall_mover.current_wall = None;
            },
        },
    }
}

/// Advance the wall coyote timer; a detected wall holds the window open and
/// records its side.
pub fn coyote_timer(wall_mover: &mut WallMovement, dt: u64)
    requires
        old(wall_mover).wf(),
        dt <= DT_LIMIT,
    ensures
        ({
            let ticked = old(wall_mover).coyote_time.timer.tick_s(dt);
            match old(wall_mover).current_wall {
                Some(w) => {
                    &&& final(wall_mover).coyote_time.timer.elapsed_ms == 0
                    &&& final(wall_mover).coyote_time.timer.duration_ms == ticked.duration_ms
                    &&& final(wall_mover).coyote_time.side == w.side
                },
                None => final(wall_mover).coyote_time == (SidedTimer {
                    timer: ticked,
                    side: old(wall_mover).coyote_time.side,
                }),
            }
        }),
        final(wall_mover).walljump_force == old(wall_mover).walljump_force,
        final(wall_mover).walljump_y_range == old(wall_mover).walljump_y_range,
        final(wall_mover).max_wall_toi == old(wall_mover).max_wall_toi,
        final(wall_mover).current_wall == old(wall_mover).current_wall,
        final(wall_mover).wf(),
{
    let mut t = wall_mover.coyote_time.timer;
    t.tick(dt);
    let mut side: i8 = wall_mover.coyote_time.side;
    match wall_mover.current_wall {
        Some(w) => {
            t.reset();
            side = w.side;
        },
        None => {},
    }
    wall_mover.coyote_time = SidedTimer { timer: t, side };
}

/// The coyote state after its tick: held open with the side recorded while
/// a wall is detected, counting up otherwise.
pub open spec fn coyote_timer_s(w: WallMovement, dt: u64) -> SidedTimer {
    match w.current_wall {
        Some(wl) => SidedTimer {
            timer: Timer { duration_ms: w.coyote_time.timer.duration_ms, elapsed_ms: 0 },
            side: wl.side,
        },
        None => SidedTimer { timer: w.coyote_time.timer.tick_s(dt), side: w.coyote_time.side },
    }
}

/// A wall jump as a whole: the wall coyote window and the jump buffer
/// consumed, the release latch armed, the force added away from the wall.
pub open spec fn walljump_s(w: WallMovement, j: Jumper, v: Vec2)
    -> (WallMovement, Jumper, Vec2) {
    (
        WallMovement {
            coyote_time: SidedTimer {
                timer: Timer {
                    duration_ms: w.coyote_time.timer.duration_ms,
                    elapsed_ms: w.coyote_time.timer.duration_ms,
                },
                side: w.coyote_time.side,
            },
            ..w
        },
        Jumper {
            jump_buffer: Timer {
                duration_ms: j.jump_buffer.duration_ms,
                elapsed_ms: j.jump_buffer.duration_ms,
            },
            can_release: true,
            ..j
        },
        walljump_vel_s(v, w.walljump_force, w.coyote_time.side as int),
    )
}

/// One detector tick as a whole.
#[verifier::opaque]
pub open spec fn wall_movement_s(
    w: WallMovement,
    pos_x: int,
    grounded_state_present: bool,
    right_hit: Option<WallHit>,
    left_hit: Option<WallHit>,
    dt: u64,
) -> WallMovement {
    let found = WallMovement {
        current_wall: get_walls_s(grounded_state_present, pos_x, right_hit, left_hit),
        ..w
    };
    WallMovement { coyote_time: coyote_timer_s(found, dt), ..found }
}

/// One detector tick: interpret the cast results, then run the coyote
/// timer.
pub fn wall_movement(
    wall_mover: &mut WallMovement,
    pos_x: i64,
    grounded_state_present: bool,
    right_hit: Option<WallHit>,
    left_hit: Option<WallHit>,
    dt: u64,
)
    requires
        old(wall_mover).wf(),
        dt <= DT_LIMIT,
    ensures
        ({
            let wall = get_walls_s(grounded_state_present, pos_x as int, right_hit, left_hit);
            let ticked = old(wall_mover).coyote_time.timer.tick_s(dt);
            &&& final(wall_mover).current_wall == wall
            &&& match wall {
                Some(w) => {
                    &&& final(wall_mover).coyote_time.timer.elapsed_ms == 0
                    &&& final(wall_mover).coyote_time.timer.duration_ms == ticked.duration_ms
                    &&& final(wall_mover).coyote_time.side == w.side
                },
                None => final(wall_mover).coyote_time == (SidedTimer {
                    timer: ticked,
                    side: old(wall_mover).coyote_time.side,
                }),
            }
        }),
        final(wall_mover).walljump_force == old(wall_mover).walljump_force,
        final(wall_mover).walljump_y_range == old(wall_mover).walljump_y_range,
        final(wall_mover).max_wall_toi == old(wall_mover).max_wall_toi,
        *final(wall_mover) == wall_movement_s(*old(wall_mover), pos_x as int,
            grounded_state_present, right_hit, left_hit, dt),
        final(wall_mover).wf(),
{
    proof {
        reveal(wall_movement_s);
    }
    get_walls(wall_mover, pos_x, grounded_state_present, right_hit, left_hit);
    coyote_timer(wall_mover, dt);
}

} // verus!
