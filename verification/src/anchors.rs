//! The static anchor registry.
//!
//! Grapple and slingshot anchors are fixed world positions with no
//! behaviour; the registry hands the controllers a plain list of them each
//! tick. The proximity query keeps the first of equally near anchors, so
//! exact ties resolve by list order.

use vstd::prelude::*;

use crate::math::{dist, dist_s, Vec2, LIMIT};

verus! {

/// A static anchor: a world entity and its position.
#[derive(Clone, Copy, PartialEq, Eq, Structural, Debug)]
pub struct GrapplePoint {
    pub entity: u64,
    pub pos: Vec2,
}

/// Every anchor position in range of the arithmetic.
pub open spec fn points_wf(points: Seq<GrapplePoint>) -> bool {
    forall|i: int| 0 <= i < points.len() ==> (#[trigger] points[i]).pos.wf()
}

/// The scan for the nearest anchor, carried over the list front to back:
/// an anchor strictly farther than `range` is skipped, and only a strictly
/// nearer anchor replaces the best so far.
pub open spec fn scan_s(pos: Vec2, range: int, points: Seq<GrapplePoint>,
    best: Option<(int, u64)>) -> Option<(int, u64)>
    decreases points.len(),
{
    if points.len() == 0 {
        best
    } else {
        let p = points[0];
        let d = dist_s(pos, p.pos);
        let next = if d > range {
            best
        } else {
            match best {
                None => Some((d, p.entity)),
                Some((bd, be)) => if d < bd { Some((d, p.entity)) } else { best },
            }
        };
        scan_s(pos, range, points.subrange(1, points.len() as int), next)
    }
}

/// The nearest anchor within `range` of `pos`, first-found on exact ties.
pub open spec fn closest_point_s(pos: Vec2, range: int, points: Seq<GrapplePoint>)
    -> Option<u64> {
    match scan_s(pos, range, points, None) {
        None => None,
        Some((_, e)) => Some(e),
    }
}

/// Find the nearest anchor within `range`, walking the list in order and
/// keeping the first of equally near anchors.
pub fn closest_point(pos: Vec2, range: i64, points: &Vec<GrapplePoint>) -> (r: Option<u64>)
    requires
        pos.wf(),
        0 <= range <= LIMIT,
        points_wf(points@),
    ensures
        r == closest_point_s(pos, range as int, points@),
{
    let mut best: Option<(i64, u64)> = None;
    let mut i: usize = 0;
    proof {
        assert(points@.subrange(0, points@.len() as int) =~= points@);
    }
    while i < points.len()
        invariant
            0 <= i <= points@.len(),
            pos.wf(),
            0 <= range <= LIMIT,
            points_wf(points@),
            scan_s(pos, range as int, points@.subrange(i as int, points@.len() as int),
                match best {
                    None => None,
                    Some((d, e)) => Some((d as int, e)),
                }) == scan_s(pos, range as int, points@, None),
        decreases points@.len() - i,
    {
        let p = points[i];
        let d: i64 = dist(pos, p.pos);
        proof {
            assert(points@.subrange(i as int, points@.len() as int)[0] == points@[i as int]);
            assert(points@.subrange(i as int, points@.len() as int)
                .subrange(1, points@.len() - i as int)
                =~= points@.subrange(i as int + 1, points@.len() as int));
        }
        if d <= range {
            match best {
                None => {
                    best = Some((d, p.entity));
                },
                Some((bd, _)) => {
                    if d < bd {
                        best = Some((d, p.entity));
                    }
                },
            }
        }
        i = i + 1;
    }
    match best {
        None => None,
        Some((_, e)) => Some(e),
    }
}

/// What the scan guarantees, relative to its carried best: a `None` result
/// means nothing was in range and no best was carried; a `Some` result is
/// the carried best or a listed in-range anchor, and its distance is a
/// lower bound on every in-range anchor of the list.
proof fn lemma_scan_min(pos: Vec2, range: int, points: Seq<GrapplePoint>,
    best: Option<(int, u64)>)
    ensures
        match scan_s(pos, range, points, best) {
            None => best.is_none() && (forall|i: int| 0 <= i < points.len()
                ==> dist_s(pos, (#[trigger] points[i]).pos) > range),
            Some((d, e)) => {
                &&& (forall|i: int| 0 <= i < points.len()
                    && dist_s(pos, (#[trigger] points[i]).pos) <= range
                    ==> d <= dist_s(pos, points[i].pos))
                &&& ((exists|i: int| 0 <= i < points.len()
                    && (#[trigger] points[i]).entity == e
                    && dist_s(pos, points[i].pos) == d && d <= range)
                    || best == Some((d, e)))
                &&& match best {
                    Some((bd, _)) => d <= bd,
                    None => true,
                }
            },
        },
    decreases points.len(),
{
    if points.len() > 0 {
        let p = points[0];
        let dd = dist_s(pos, p.pos);
        let next = if dd > range {
            best
        } else {
            match best {
                None => Some((dd, p.entity)),
                Some((bd, _)) => if dd < bd { Some((dd, p.entity)) } else { best },
            }
        };
        let rest = points.subrange(1, points.len() as int);
        lemma_scan_min(pos, range, rest, next);
        assert forall|i: int| 1 <= i < points.len() implies #[trigger] points[i]
            == rest[i - 1] by {
            assert(rest[i - 1] == points[i]);
        };
    }
}

/// The nearest-anchor query, declaratively: a `Some` answer names a listed
/// anchor within `range` whose distance no listed in-range anchor beats; a
/// `None` answer means every listed anchor is strictly farther than
/// `range`.
pub proof fn lemma_closest_point_is_nearest(pos: Vec2, range: int, points: Seq<GrapplePoint>)
    ensures
        match closest_point_s(pos, range, points) {
            None => forall|i: int| 0 <= i < points.len()
                ==> dist_s(pos, (#[trigger] points[i]).pos) > range,
            Some(e) => exists|i: int| 0 <= i < points.len()
                && (#[trigger] points[i]).entity == e
                && dist_s(pos, points[i].pos) <= range
                && (forall|j: int| 0 <= j < points.len()
                    && dist_s(pos, (#[trigger] points[j]).pos) <= range
                    ==> dist_s(pos, points[i].pos) <= dist_s(pos, points[j].pos)),
        },
{
    lemma_scan_min(pos, range, points, None);
}

/// The position of the anchor with the given entity, front to back.
pub open spec fn find_point_s(points: Seq<GrapplePoint>, entity: u64) -> Option<Vec2>
    decreases points.len(),
{
    if points.len() == 0 {
        None
    } else if points[0].entity == entity {
        Some(points[0].pos)
    } else {
        find_point_s(points.subrange(1, points.len() as int), entity)
    }
}

/// A position found among well-formed anchors is itself well-formed.
pub proof fn lemma_find_point_wf(points: Seq<GrapplePoint>, entity: u64)
    requires
        points_wf(points),
    ensures
        match find_point_s(points, entity) {
            Some(p) => p.wf(),
            None => true,
        },
    decreases points.len(),
{
    if points.len() > 0 && points[0].entity != entity {
        let rest = points.subrange(1, points.len() as int);
        assert(points_wf(rest)) by {
            assert forall|i: int| 0 <= i < rest.len() implies (#[trigger] rest[i]).pos.wf() by {
                assert(rest[i] == points[i + 1]);
            };
        };
        lemma_find_point_wf(rest, entity);
    }
}

/// Look an anchor up by entity; `None` means it vanished from the world.
pub fn find_point(points: &Vec<GrapplePoint>, entity: u64) -> (r: Option<Vec2>)
    ensures
        r == find_point_s(points@, entity),
{
    let mut i: usize = 0;
    proof {
        assert(points@.subrange(0, points@.len() as int) =~= points@);
    }
    while i < points.len()
        invariant
            0 <= i <= points@.len(),
            find_point_s(points@.subrange(i as int, points@.len() as int), entity)
                == find_point_s(points@, entity),
        decreases points@.len() - i,
    {
        proof {
            assert(points@.subrange(i as int, points@.len() as int)[0] == points@[i as int]);
            assert(points@.subrange(i as int, points@.len() as int)
                .subrange(1, points@.len() - i as int)
                =~= points@.subrange(i as int + 1, points@.len() as int));
        }
        let p = points[i];
        if p.entity == entity {
            return Some(p.pos);
        }
        i = i + 1;
    }
    None
}

} // verus!
