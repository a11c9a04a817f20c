//! Grapple controller.
//!
//! Locates the nearest grapple anchor in range every tick, locks onto it
//! within an engage-buffer window after the grapple press, and while locked
//! adds a spring-like correction to the velocity: repulsive below the
//! minimum desired distance, attractive beyond the maximum, and exactly
//! zero inside the dead zone between them. A buffered jump cancels the
//! grapple into a jump.

use vstd::prelude::*;

use crate::anchors::{closest_point, closest_point_s, find_point, find_point_s, points_wf,
    GrapplePoint};
use crate::input::{InputAction, InputSnapshot};
use crate::jumper::{jump_s, Jumper};
use crate::math::{dist, dist_s, muldiv, muldiv_s, spring_pow, spring_pow_s, Vec2, DT_LIMIT,
    LIMIT, SCALE};
use crate::velocity::KinematicVelocity;

verus! {

/// Horizontal bias of the far (attractive) correction, in thousandths.
pub const GRAPPLE_X_MULTI: i64 = 1200;

/// Grapple constants and per-tick lock state. Distances are milli-units,
/// spring coefficients thousandths, the engage buffer milliseconds.
#[derive(Clone, Copy, PartialEq, Eq, Structural, Debug)]
pub struct Grappler {
    pub range: i64,
    pub min_desired: i64,
    pub max_desired: i64,
    pub far_springyness: i64,
    pub close_springyness: i64,
    pub grapple_buffer: u64,
    pub current_point: Option<u64>,
    pub closest_point: Option<u64>,
    pub grapple_buffer_timer: Option<u64>,
}

impl Grappler {
    pub open spec fn wf(self) -> bool {
        &&& 0 <= self.range <= LIMIT
        &&& 0 <= self.min_desired <= LIMIT
        &&& 0 <= self.max_desired <= LIMIT
        &&& self.min_desired <= self.max_desired
        &&& 0 <= self.far_springyness <= LIMIT
        &&& 0 <= self.close_springyness <= LIMIT
    }

    pub fn new(
        range: i64,
        min_desired: i64,
        max_desired: i64,
        far_springyness: i64,
        close_springyness: i64,
        grapple_buffer: u64,
    ) -> (r: Grappler)
        requires
            0 <= range <= LIMIT,
            0 <= min_desired <= LIMIT,
            0 <= max_desired <= LIMIT,
            min_desired <= max_desired,
            0 <= far_springyness <= LIMIT,
            0 <= close_springyness <= LIMIT,
        ensures
            r.range == range,
            r.min_desired == min_desired,
            r.max_desired == max_desired,
            r.far_springyness == far_springyness,
            r.close_springyness == close_springyness,
            r.grapple_buffer == grapple_buffer,
            r.current_point.is_none(),
            r.closest_point.is_none(),
            r.grapple_buffer_timer.is_none(),
            r.wf(),
    {
        Grappler {
            range,
            min_desired,
            max_desired,
            far_springyness,
            close_springyness,
            grapple_buffer,
            current_point: None,
            closest_point: None,
            grapple_buffer_timer: None,
        }
    }

    /// A candidate anchor is in range this tick.
    pub open spec fn spec_can_grapple(self) -> bool {
        self.closest_point.is_some()
    }

    pub fn can_grapple(&self) -> (r: bool)
        ensures
            r == self.spec_can_grapple(),
    {
        self.closest_point.is_some()
    }

    /// An anchor is currently locked.
    pub open spec fn spec_is_grappling(self) -> bool {
        self.current_point.is_some()
    }

    pub fn is_grappling(&self) -> (r: bool)
        ensures
            r == self.spec_is_grappling(),
    {
        self.current_point.is_some()
    }
}

/// Why no grapple force was applied this tick. All of these clear the lock
/// and resolve themselves within the tick.
#[derive(Clone, Copy, PartialEq, Eq, Structural, Debug)]
pub enum GrappleError {
    /// No engage-buffer window is running: the actor never started
    /// grappling.
    NotStarted,
    /// The engage buffer ran out before a lock was acquired; this one is
    /// silent, since no anchor was there to grapple.
    LockExpired,
    /// A lock was attempted with no candidate anchor in range.
    NoCandidate,
    /// The locked anchor vanished from the world mid-tick.
    StaleAnchor,
}

impl GrappleError {
    /// Whether the failure passes without a diagnostic.
    pub fn silent(&self) -> (r: bool)
        ensures
            r == (*self == GrappleError::LockExpired),
    {
        matches!(*self, GrappleError::LockExpired)
    }
}

/// The engage buffer after one tick: a running window keeps counting, a
/// fresh grapple press restarts it at zero, and letting go of the input
/// clears both the window and the lock and ends the grapple for this tick
/// (the `bool` is that stop signal).
pub open spec fn grapple_buffer_s(g: Grappler, input: InputSnapshot, dt: u64)
    -> (Grappler, bool) {
    let t1: Option<u64> = match g.grapple_buffer_timer {
        Some(t) => Some(
            (if t + dt > u64::MAX { u64::MAX as int } else { t + dt }) as u64,
        ),
        None => None,
    };
    let t2: Option<u64> = if input.spec_just_pressed(InputAction::Grapple) {
        Some(0u64)
    } else {
        t1
    };
    if !input.spec_pressed(InputAction::Grapple) {
        (Grappler { grapple_buffer_timer: None, current_point: None, ..g }, true)
    } else {
        (Grappler { grapple_buffer_timer: t2, ..g }, false)
    }
}

/// Advance the engage buffer; returns true when the grapple input is gone
/// and the tick should stop here.
pub fn grapple_buffer(grappler: &mut Grappler, input: &InputSnapshot, dt: u64) -> (stop: bool)
    requires
        dt <= DT_LIMIT,
    ensures
        (*final(grappler), stop) == grapple_buffer_s(*old(grappler), *input, dt),
{
    match grappler.grapple_buffer_timer {
        Some(t) => {
            let bumped: u64 = if t > u64::MAX - dt { u64::MAX } else { t + dt };
            grappler.grapple_buffer_timer = Some(bumped);
        },
        None => {},
    }
    if input.just_pressed(InputAction::Grapple) {
        grappler.grapple_buffer_timer = Some(0);
    }
    if !input.pressed(InputAction::Grapple) {
        grappler.grapple_buffer_timer = None;
        grappler.current_point = None;
        return true;
    }
    false
}

/// Resolving the anchor to pull toward: an existing lock is looked up in
/// the world; without one, a lock on the nearest candidate is attempted,
/// but only while the engage buffer is still inside its window.
pub open spec fn get_point_s(points: Seq<GrapplePoint>, g: Grappler)
    -> (Grappler, Result<Vec2, GrappleError>) {
    match g.current_point {
        Some(e) => (
            g,
            match find_point_s(points, e) {
                None => Err(GrappleError::StaleAnchor),
                Some(p) => Ok(p),
            },
        ),
        None => {
            match g.grapple_buffer_timer {
                None => (g, Err(GrappleError::NotStarted)),
                Some(t) => {
                    if t >= g.grapple_buffer {
                        (g, Err(GrappleError::LockExpired))
                    } else {
                        let locked = Grappler { current_point: g.closest_point, ..g };
                        match g.closest_point {
                            None => (locked, Err(GrappleError::NoCandidate)),
                            Some(e) => (
                                locked,
                                match find_point_s(points, e) {
                                    None => Err(GrappleError::StaleAnchor),
                                    Some(p) => Ok(p),
                                },
                            ),
                        }
                    }
                },
            }
        },
    }
}

/// Resolve the anchor position for this tick, locking the nearest
/// candidate when none is locked yet and the engage window is still open.
pub fn get_point(points: &Vec<GrapplePoint>, grappler: &mut Grappler)
    -> (r: Result<Vec2, GrappleError>)
    ensures
        (*final(grappler), r) == get_point_s(points@, *old(grappler)),
        match r {
            Ok(p) => points_wf(points@) ==> p.wf(),
            Err(_) => true,
        },
{
    let current: u64 = match grappler.current_point {
        Some(e) => e,
        None => {
            match grappler.grapple_buffer_timer {
                None => {
                    return Err(GrappleError::NotStarted);
                },
                Some(t) => {
                    if t >= grappler.grapple_buffer {
                        return Err(GrappleError::LockExpired);
                    }
                },
            }
            let closest = grappler.closest_point;
            grappler.current_point = closest;
            match closest {
                Some(e) => e,
                None => {
                    return Err(GrappleError::NoCandidate);
                },
            }
        },
    };
    proof {
        if points_wf(points@) {
            crate::anchors::lemma_find_point_wf(points@, current);
        }
    }
    match find_point(points, current) {
        None => Err(GrappleError::StaleAnchor),
        Some(p) => Ok(p),
    }
}

/// The spring correction this tick adds to the velocity, before the
/// direction vector is applied: zero inside the dead zone, a repulsive
/// square-law term below the minimum desired distance, an attractive
/// 13/8-power term beyond the maximum.
pub open spec fn grapple_scalar_s(g: Grappler, d: int) -> int {
    if d < g.min_desired {
        -muldiv_s(
            g.close_springyness as int,
            muldiv_s(g.min_desired - d, g.min_desired - d, SCALE as int),
            SCALE as int,
        )
    } else if d > g.max_desired {
        muldiv_s(g.far_springyness as int, spring_pow_s(d - g.max_desired), SCALE as int)
    } else {
        0
    }
}

/// The full force vector: the scalar correction, scaled by the tick's
/// delta time, with a horizontal bias on the attractive branch, applied
/// along the unnormalized offset from actor to anchor.
pub open spec fn grappler_forces_s(dt: u64, pos: Vec2, g: Grappler, point: Vec2) -> Vec2 {
    let d = dist_s(pos, point);
    let scalar = grapple_scalar_s(g, d);
    let base = muldiv_s(scalar, dt as int, SCALE as int);
    let fx = if d > g.max_desired {
        muldiv_s(base, GRAPPLE_X_MULTI as int, SCALE as int)
    } else {
        base
    };
    Vec2 {
        x: muldiv_s(point.x - pos.x, fx, SCALE as int) as i64,
        y: muldiv_s(point.y - pos.y, base, SCALE as int) as i64,
    }
}

/// Compute the spring force toward (or away from) the anchor for this
/// tick. Inside the dead zone between the desired distances the result is
/// exactly the zero vector.
pub fn grappler_forces(dt: u64, pos: Vec2, grappler: &Grappler, point: Vec2) -> (r: Vec2)
    requires
        grappler.wf(),
        pos.wf(),
        point.wf(),
        dt <= DT_LIMIT,
    ensures
        r == grappler_forces_s(dt, pos, *grappler, point),
        r.wf(),
{
    let d: i64 = dist(pos, point);
    let scalar: i64 = if d < grappler.min_desired {
        let delta: i64 = grappler.min_desired - d;
        -muldiv(grappler.close_springyness, muldiv(delta, delta, SCALE), SCALE)
    } else if d > grappler.max_desired {
        let delta: i64 = d - grappler.max_desired;
        muldiv(grappler.far_springyness, spring_pow(delta), SCALE)
    } else {
        0
    };
    let base: i64 = muldiv(scalar, dt as i64, SCALE);
    let fx: i64 = if d > grappler.max_desired {
        muldiv(base, GRAPPLE_X_MULTI, SCALE)
    } else {
        base
    };
    Vec2 {
        x: muldiv(point.x - pos.x, fx, SCALE),
        y: muldiv(point.y - pos.y, base, SCALE),
    }
}

/// Grapple dead zone: with the anchor distance between the minimum and
/// maximum desired distances, the grapple contributes the zero vector to
/// the velocity for that tick.
pub proof fn lemma_grapple_dead_zone(dt: u64, pos: Vec2, g: Grappler, point: Vec2)
    requires
        g.wf(),
        g.min_desired <= dist_s(pos, point) <= g.max_desired,
    ensures
        grappler_forces_s(dt, pos, g, point) == (Vec2 { x: 0, y: 0 }),
{
    let d = dist_s(pos, point);
    assert(grapple_scalar_s(g, d) == 0);
    assert(muldiv_s(0, dt as int, SCALE as int) == 0) by {
        assert(0int * (dt as int) == 0) by (nonlinear_arith);
    };
    assert(muldiv_s(point.x - pos.x, 0, SCALE as int) == 0) by {
        assert((point.x - pos.x) * 0 == 0) by (nonlinear_arith);
    };
    assert(muldiv_s(point.y - pos.y, 0, SCALE as int) == 0) by {
        assert((point.y - pos.y) * 0 == 0) by (nonlinear_arith);
    };
}

/// The spring correction always acts along the line between actor and
/// anchor: beyond the dead zone each force component points from the actor
/// toward the anchor (attractive), and below it each component points away
/// (repulsive).
pub proof fn lemma_grapple_spring_direction(dt: u64, pos: Vec2, g: Grappler, point: Vec2)
    requires
        g.wf(),
    ensures
        ({
            let d = dist_s(pos, point);
            let f = grappler_forces_s(dt, pos, g, point);
            &&& d > g.max_desired ==> {
                &&& point.x >= pos.x ==> f.x >= 0
                &&& point.x <= pos.x ==> f.x <= 0
                &&& point.y >= pos.y ==> f.y >= 0
                &&& point.y <= pos.y ==> f.y <= 0
            }
            &&& d < g.min_desired ==> {
                &&& point.x >= pos.x ==> f.x <= 0
                &&& point.x <= pos.x ==> f.x >= 0
                &&& point.y >= pos.y ==> f.y <= 0
                &&& point.y <= pos.y ==> f.y >= 0
            }
        }),
{
    let d = dist_s(pos, point);
    let scalar = grapple_scalar_s(g, d);
    if d > g.max_desired {
        let delta = d - g.max_desired;
        crate::math::lemma_sqrt_floor_exists(1000 * delta);
        let s = crate::math::sqrt_floor(1000 * delta);
        crate::math::lemma_sqrt_floor_exists(1000 * s);
        let q = crate::math::sqrt_floor(1000 * s);
        crate::math::lemma_sqrt_floor_exists(1000 * q);
        let e = crate::math::sqrt_floor(1000 * q);
        crate::math::lemma_muldiv_s_sign(delta, s, 1000);
        crate::math::lemma_muldiv_s_sign(muldiv_s(delta, s, 1000), e, 1000);
        crate::math::lemma_muldiv_s_sign(g.far_springyness as int, spring_pow_s(delta),
            SCALE as int);
        crate::math::lemma_muldiv_s_sign(scalar, dt as int, SCALE as int);
        let base = muldiv_s(scalar, dt as int, SCALE as int);
        crate::math::lemma_muldiv_s_sign(base, GRAPPLE_X_MULTI as int, SCALE as int);
        let fx = muldiv_s(base, GRAPPLE_X_MULTI as int, SCALE as int);
        crate::math::lemma_muldiv_s_sign(point.x - pos.x, fx, SCALE as int);
        crate::math::lemma_muldiv_s_sign(point.y - pos.y, base, SCALE as int);
    } else if d < g.min_desired {
        let delta = g.min_desired - d;
        crate::math::lemma_muldiv_s_sign(delta, delta, SCALE as int);
        crate::math::lemma_muldiv_s_sign(g.close_springyness as int,
            muldiv_s(delta, delta, SCALE as int), SCALE as int);
        crate::math::lemma_muldiv_s_sign(scalar, dt as int, SCALE as int);
        let base = muldiv_s(scalar, dt as int, SCALE as int);
        crate::math::lemma_muldiv_s_sign(point.x - pos.x, base, SCALE as int);
        crate::math::lemma_muldiv_s_sign(point.y - pos.y, base, SCALE as int);
    }
}

/// One grapple-controller tick, composed of the phases above: candidate
/// scan, engage-buffer bookkeeping, lock resolution, force application,
/// and the buffered-jump cancel.
#[verifier::opaque]
pub open spec fn grappler_movement_s(
    pos: Vec2,
    g: Grappler,
    v: KinematicVelocity,
    j: Jumper,
    points: Seq<GrapplePoint>,
    input: InputSnapshot,
    dt: u64,
) -> (Grappler, KinematicVelocity, Jumper, Option<GrappleError>) {
    let scanned = Grappler { closest_point: closest_point_s(pos, g.range as int, points), ..g };
    let (buffered, stop) = grapple_buffer_s(scanned, input, dt);
    if stop {
        (buffered, v, j, None)
    } else if !buffered.spec_can_grapple() && !buffered.spec_is_grappling() {
        (Grappler { current_point: None, ..buffered }, v, j, None)
    } else {
        let (locked, resolved) = get_point_s(points, buffered);
        match resolved {
            Err(e) => (Grappler { current_point: None, ..locked }, v, j, Some(e)),
            Ok(point) => {
                let f = grappler_forces_s(dt, pos, locked, point);
                let pulled = KinematicVelocity {
                    x: crate::math::sat_add_s(v.x as int, f.x as int) as i64,
                    y: crate::math::sat_add_s(v.y as int, f.y as int) as i64,
                };
                if !j.jump_buffer.spec_finished() {
                    let (j2, v2) = jump_s(j, Vec2 { x: pulled.x, y: pulled.y });
                    (
                        Grappler { current_point: None, ..locked },
                        KinematicVelocity { x: v2.x, y: v2.y },
                        j2,
                        None,
                    )
                } else {
                    (locked, pulled, j, None)
                }
            },
        }
    }
}

/// One grapple-controller tick. The returned diagnostic is what the
/// controller wants logged; `None` also covers the silent no-grapple
/// paths.
pub fn grappler_movement(
    transform: Vec2,
    grappler: &mut Grappler,
    vel: &mut KinematicVelocity,
    input: &InputSnapshot,
    jumper: &mut Jumper,
    points: &Vec<GrapplePoint>,
    dt: u64,
) -> (diag: Option<GrappleError>)
    requires
        transform.wf(),
        old(grappler).wf(),
        old(vel).wf(),
        old(jumper).wf(),
        points_wf(points@),
        dt <= DT_LIMIT,
    ensures
        (*final(grappler), *final(vel), *final(jumper), diag) == grappler_movement_s(transform,
            *old(grappler), *old(vel), *old(jumper), points@, *input, dt),
        final(grappler).wf(),
        final(vel).wf(),
        final(jumper).wf(),
{
    proof {
        reveal(grappler_movement_s);
    }
    grappler.closest_point = closest_point(transform, grappler.range, points);

    if grapple_buffer(grappler, input, dt) {
        return None;
    }

    if !grappler.can_grapple() && !grappler.is_grappling() {
        grappler.current_point = None;
        return None;
    }

    let point: Vec2 = match get_point(points, grappler) {
        Ok(v) => v,
        Err(e) => {
            grappler.current_point = None;
            return Some(e);
        },
    };

    let f = grappler_forces(dt, transform, grappler, point);
    vel.accumulate(f);

    if jumper.jump_buffer_remaining() > 0 {
        let v = jumper.jump(vel.to_vec2());
        vel.x = v.x;
        vel.y = v.y;
        grappler.current_point = None;
    }
    None
}

} // verus!
