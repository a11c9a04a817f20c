//! Slingshot controller.
//!
//! Finds the nearest anchor in range each tick and, on a buffered press,
//! fires a one-shot directional impulse toward it: the horizontal velocity
//! accumulates the impulse, while a falling actor has its vertical velocity
//! replaced by it, so the upward kick is consistent regardless of fall
//! speed. A re-arm delay gates how soon the slingshot can fire again, and
//! presses made while the delay runs are ignored.

use vstd::prelude::*;

use crate::anchors::{closest_point, closest_point_s, find_point, find_point_s, points_wf,
    GrapplePoint};
use crate::input::{InputAction, InputSnapshot};
use crate::jumper::Jumper;
use crate::math::{muldiv, muldiv_s, norm_or_zero, norm_s, sat_add, sat_add_s, Vec2, DT_LIMIT,
    LIMIT, SCALE};
use crate::timer::Timer;
use crate::velocity::KinematicVelocity;

verus! {

/// Slingshot constants and per-tick state. The force is milli-units per
/// second, the directional multipliers thousandths, the timers
/// milliseconds.
#[derive(Clone, Copy, PartialEq, Eq, Structural, Debug)]
pub struct Slingshot {
    pub force: i64,
    pub range: i64,
    pub dir_multi: Vec2,
    pub above_multi: i64,
    pub closest_point: Option<u64>,
    pub buffer_timer: Timer,
    pub delay_timer: Timer,
}

impl Slingshot {
    pub open spec fn wf(self) -> bool {
        &&& 0 <= self.force <= LIMIT
        &&& 0 <= self.range <= LIMIT
        &&& self.dir_multi.wf()
        &&& 0 <= self.above_multi <= LIMIT
        &&& self.buffer_timer.wf()
        &&& self.delay_timer.wf()
    }

    pub fn new(
        force: i64,
        range: i64,
        dir_multi: Vec2,
        above_multi: i64,
        buffer_time_ms: u64,
        delay_time_ms: u64,
    ) -> (r: Slingshot)
        requires
            0 <= force <= LIMIT,
            0 <= range <= LIMIT,
            dir_multi.wf(),
            0 <= above_multi <= LIMIT,
        ensures
            r.force == force,
            r.range == range,
            r.dir_multi == dir_multi,
            r.above_multi == above_multi,
            r.closest_point.is_none(),
            r.buffer_timer.duration_ms == buffer_time_ms,
            r.buffer_timer.elapsed_ms == 0,
            r.delay_timer.duration_ms == delay_time_ms,
            r.delay_timer.elapsed_ms == 0,
            r.wf(),
    {
        Slingshot {
            force,
            range,
            dir_multi,
            above_multi,
            closest_point: None,
            buffer_timer: Timer::new(buffer_time_ms),
            delay_timer: Timer::new(delay_time_ms),
        }
    }

    /// A candidate anchor is in range this tick.
    pub open spec fn spec_can_slingshot(self) -> bool {
        self.closest_point.is_some()
    }

    pub fn can_slingshot(&self) -> (r: bool)
        ensures
            r == self.spec_can_slingshot(),
    {
        self.closest_point.is_some()
    }

    pub fn get_closest(&self) -> (r: Option<u64>)
        ensures
            r == self.closest_point,
    {
        self.closest_point
    }
}

/// Why no impulse fired this tick; both are logged.
#[derive(Clone, Copy, PartialEq, Eq, Structural, Debug)]
pub enum SlingshotError {
    /// No candidate anchor in range.
    NoCandidate,
    /// The candidate anchor vanished from the world mid-tick.
    StaleAnchor,
}

/// The timers after one tick: the press buffer always advances; while the
/// re-arm delay still runs it advances too and the press is ignored; once
/// the delay is over, a fresh press restarts the buffer.
pub open spec fn buffer_time_s(s: Slingshot, input: InputSnapshot, dt: u64) -> Slingshot {
    let b1 = s.buffer_timer.tick_s(dt);
    if !s.delay_timer.spec_finished() {
        Slingshot { buffer_timer: b1, delay_timer: s.delay_timer.tick_s(dt), ..s }
    } else if input.spec_just_pressed(InputAction::Slingshot) {
        Slingshot {
            buffer_timer: Timer { duration_ms: b1.duration_ms, elapsed_ms: 0 },
            ..s
        }
    } else {
        Slingshot { buffer_timer: b1, ..s }
    }
}

/// Advance the press buffer and the re-arm delay for this tick.
pub fn buffer_time(slingshot: &mut Slingshot, input: &InputSnapshot, dt: u64)
    requires
        old(slingshot).wf(),
        dt <= DT_LIMIT,
    ensures
        *final(slingshot) == buffer_time_s(*old(slingshot), *input, dt),
        final(slingshot).wf(),
{
    slingshot.buffer_timer.tick(dt);

    if !slingshot.delay_timer.finished() {
        slingshot.delay_timer.tick(dt);
        return;
    }

    if input.just_pressed(InputAction::Slingshot) {
        slingshot.buffer_timer.reset();
    }
}

/// The impulse vector for a normalized direction (in thousandths): the
/// force under the directional multipliers, with the above-target bonus
/// when the anchor lies below the actor.
pub open spec fn impulse_force_s(s: Slingshot, dir: Vec2) -> Vec2 {
    let cond: int = if dir.y < 0 { s.above_multi as int } else { SCALE as int };
    Vec2 {
        x: muldiv_s(muldiv_s(s.force as int, s.dir_multi.x as int, SCALE as int), cond,
            SCALE as int) as i64,
        y: muldiv_s(muldiv_s(s.force as int, s.dir_multi.y as int, SCALE as int), cond,
            SCALE as int) as i64,
    }
}

/// The velocity after the impulse: the horizontal part accumulates; the
/// vertical part replaces a downward velocity and accumulates otherwise.
pub open spec fn impulse_vel_s(s: Slingshot, dir: Vec2, v: KinematicVelocity)
    -> KinematicVelocity {
    let f = impulse_force_s(s, dir);
    let dy: int = if dir.y < 0 { -dir.y as int } else { dir.y as int };
    let vy_imp = muldiv_s(dy, f.y as int, SCALE as int);
    KinematicVelocity {
        x: sat_add_s(v.x as int, muldiv_s(dir.x as int, f.x as int, SCALE as int)) as i64,
        y: if v.y < 0 { vy_imp as i64 } else { sat_add_s(v.y as int, vy_imp) as i64 },
    }
}

/// The whole firing step: resolve the candidate anchor, consume the press
/// buffer, restart the re-arm delay, disarm the jump-release latch, and
/// apply the impulse.
pub open spec fn slingshot_impulse_s(
    s: Slingshot,
    pos: Vec2,
    v: KinematicVelocity,
    points: Seq<GrapplePoint>,
    j: Option<Jumper>,
) -> (Slingshot, KinematicVelocity, Option<Jumper>, Option<SlingshotError>) {
    match s.closest_point {
        None => (s, v, j, Some(SlingshotError::NoCandidate)),
        Some(e) => match find_point_s(points, e) {
            None => (s, v, j, Some(SlingshotError::StaleAnchor)),
            Some(point) => {
                let consumed = Slingshot {
                    buffer_timer: Timer {
                        duration_ms: s.buffer_timer.duration_ms,
                        elapsed_ms: s.buffer_timer.duration_ms,
                    },
                    closest_point: None,
                    delay_timer: Timer {
                        duration_ms: s.delay_timer.duration_ms,
                        elapsed_ms: 0,
                    },
                    ..s
                };
                let disarmed = match j {
                    Some(jj) => Some(Jumper { can_release: false, ..jj }),
                    None => None,
                };
                let dir = norm_s(
                    Vec2 { x: (point.x - pos.x) as i64, y: (point.y - pos.y) as i64 },
                );
                (consumed, impulse_vel_s(s, dir, v), disarmed, None)
            },
        },
    }
}

/// Fire the slingshot: one directional impulse toward the candidate
/// anchor, consuming the buffered press and restarting the re-arm delay.
pub fn slingshot_impulse(
    slingshot: &mut Slingshot,
    slingshot_pos: Vec2,
    vel: &mut KinematicVelocity,
    points: &Vec<GrapplePoint>,
    jumper: &mut Option<Jumper>,
) -> (diag: Option<SlingshotError>)
    requires
        old(slingshot).wf(),
        slingshot_pos.wf(),
        old(vel).wf(),
        points_wf(points@),
        match *old(jumper) {
            Some(j) => j.wf(),
            None => true,
        },
    ensures
        (*final(slingshot), *final(vel), *final(jumper), diag) == slingshot_impulse_s(
            *old(slingshot), slingshot_pos, *old(vel), points@, *old(jumper)),
        final(slingshot).wf(),
        final(vel).wf(),
        match *final(jumper) {
            Some(j) => j.wf(),
            None => true,
        },
{
    let point_entity: u64 = match slingshot.closest_point {
        Some(e) => e,
        None => {
            return Some(SlingshotError::NoCandidate);
        },
    };
    proof {
        crate::anchors::lemma_find_point_wf(points@, point_entity);
    }
    let point: Vec2 = match find_point(points, point_entity) {
        Some(p) => p,
        None => {
            return Some(SlingshotError::StaleAnchor);
        },
    };

    let fired = *slingshot;
    slingshot.buffer_timer.finish();
    slingshot.closest_point = None;
    slingshot.delay_timer.reset();

    match *jumper {
        Some(mut j) => {
            j.can_release = false;
            *jumper = Some(j);
        },
        None => {},
    }

    let dir: Vec2 = norm_or_zero(Vec2 { x: point.x - slingshot_pos.x, y: point.y - slingshot_pos.y });

    let cond: i64 = if dir.y < 0 { fired.above_multi } else { SCALE };
    let fx: i64 = muldiv(muldiv(fired.force, fired.dir_multi.x, SCALE), cond, SCALE);
    let fy: i64 = muldiv(muldiv(fired.force, fired.dir_multi.y, SCALE), cond, SCALE);

    vel.x = sat_add(vel.x, muldiv(dir.x, fx, SCALE));

    let dy_abs: i64 = if dir.y < 0 { -dir.y } else { dir.y };
    let vy_imp: i64 = muldiv(dy_abs, fy, SCALE);
    if vel.y < 0 {
        vel.y = vy_imp;
    } else {
        vel.y = sat_add(vel.y, vy_imp);
    }
    None
}

/// One slingshot-controller tick: candidate scan, timer bookkeeping, and
/// the impulse when a buffered press meets a candidate.
#[verifier::opaque]
pub open spec fn slingshot_s(
    s: Slingshot,
    pos: Vec2,
    v: KinematicVelocity,
    points: Seq<GrapplePoint>,
    j: Option<Jumper>,
    input: InputSnapshot,
    dt: u64,
) -> (Slingshot, KinematicVelocity, Option<Jumper>, Option<SlingshotError>) {
    let scanned = Slingshot { closest_point: closest_point_s(pos, s.range as int, points), ..s };
    let timed = buffer_time_s(scanned, input, dt);
    if !timed.buffer_timer.spec_finished() && timed.spec_can_slingshot() {
        slingshot_impulse_s(timed, pos, v, points, j)
    } else {
        (timed, v, j, None)
    }
}

/// One slingshot-controller tick. The returned diagnostic is what the
/// controller wants logged.
pub fn slingshot(
    slingshot_state: &mut Slingshot,
    transform: Vec2,
    input: &InputSnapshot,
    vel: &mut KinematicVelocity,
    jumper: &mut Option<Jumper>,
    points: &Vec<GrapplePoint>,
    dt: u64,
) -> (diag: Option<SlingshotError>)
    requires
        old(slingshot_state).wf(),
        transform.wf(),
        old(vel).wf(),
        points_wf(points@),
        dt <= DT_LIMIT,
        match *old(jumper) {
            Some(j) => j.wf(),
            None => true,
        },
    ensures
        (*final(slingshot_state), *final(vel), *final(jumper), diag) == slingshot_s(
            *old(slingshot_state), transform, *old(vel), points@, *old(jumper), *input, dt),
        final(slingshot_state).wf(),
        final(vel).wf(),
        match *final(jumper) {
            Some(j) => j.wf(),
            None => true,
        },
{
    proof {
        reveal(slingshot_s);
    }
    slingshot_state.closest_point = closest_point(transform, slingshot_state.range, points);
    buffer_time(slingshot_state, input, dt);

    if !slingshot_state.buffer_timer.finished() && slingshot_state.can_slingshot() {
        return slingshot_impulse(slingshot_state, transform, vel, points, jumper);
    }
    None
}

/// Slingshot re-arm: right after a fire the press buffer reads consumed
/// and the re-arm delay has just restarted. While the delay still runs, a
/// tick leaves the buffer consumed whatever is pressed — so no second
/// impulse can fire — and once the delay has elapsed, a fresh press
/// restarts the buffer and a second impulse is available again.
pub proof fn lemma_slingshot_rearm(
    s: Slingshot,
    pos: Vec2,
    v: KinematicVelocity,
    points: Seq<GrapplePoint>,
    j: Option<Jumper>,
    input: InputSnapshot,
    dt: u64,
)
    requires
        s.wf(),
        s.buffer_timer.spec_finished(),
    ensures
        !s.delay_timer.spec_finished() ==> ({
            let (s2, v2, j2, diag) = slingshot_s(s, pos, v, points, j, input, dt);
            &&& s2.buffer_timer.spec_finished()
            &&& v2 == v
            &&& j2 == j
            &&& diag.is_none()
        }),
        s.delay_timer.spec_finished() && input.spec_just_pressed(InputAction::Slingshot) ==> ({
            let scanned = Slingshot {
                closest_point: closest_point_s(pos, s.range as int, points),
                ..s
            };
            buffer_time_s(scanned, input, dt).buffer_timer.elapsed_ms == 0
        }),
{
    reveal(slingshot_s);
}

} // verus!
