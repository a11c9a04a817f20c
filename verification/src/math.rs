//! Fixed-point arithmetic for the movement core.
//!
//! Lengths and velocities are milli-units (`SCALE` = 1000 per unit),
//! dimensionless multipliers are thousandths, times are milliseconds.
//! Every stored quantity is kept inside `[-LIMIT, LIMIT]`; the arithmetic
//! helpers saturate there, so state updates are total and never overflow.

use vstd::prelude::*;

verus! {

/// Fixed-point scale: milli-units per unit, thousandths per whole multiplier.
pub const SCALE: i64 = 1000;

/// Saturation bound for every stored quantity (positions, velocities, forces).
pub const LIMIT: i64 = 1_000_000_000_000_000_000;

/// Domain bound for the arithmetic helpers; twice `LIMIT` on either side still
/// fits, so differences of in-range values are accepted as arguments.
pub const ARG_LIMIT: i64 = 4_000_000_000_000_000_000;

/// Largest accepted simulation step, in milliseconds.
pub const DT_LIMIT: u64 = 10_000_000;

/// Clamp into the saturation range.
pub open spec fn clip(x: int) -> int {
    if x > LIMIT { LIMIT as int } else if x < -LIMIT { -(LIMIT as int) } else { x }
}

/// Division by a positive divisor, truncating toward zero (as the hardware does
/// on magnitudes), rather than the flooring division of spec arithmetic.
pub open spec fn tdiv(n: int, d: int) -> int
    recommends d > 0,
{
    if n >= 0 { n / d } else { -((-n) / d) }
}

/// Scaled product `a * b / d`, truncated toward zero and saturated.
pub open spec fn muldiv_s(a: int, b: int, d: int) -> int
    recommends d > 0,
{
    clip(tdiv(a * b, d))
}

/// Saturated sum.
pub open spec fn sat_add_s(a: int, b: int) -> int {
    clip(a + b)
}

/// Sign with the convention of the movement code: zero counts as positive.
pub open spec fn sgn(x: int) -> int {
    if x < 0 { -1int } else { 1int }
}

/// `r` is the integer square root of `n`, rounded down.
pub open spec fn is_sqrt_floor(n: int, r: int) -> bool {
    &&& 0 <= r
    &&& r * r <= n
    &&& n < (r + 1) * (r + 1)
}

/// The integer square root, rounded down (meaningful for `n >= 0`).
pub open spec fn sqrt_floor(n: int) -> int {
    choose|r: int| is_sqrt_floor(n, r)
}

/// The square-root characterisation pins a unique value.
pub proof fn lemma_sqrt_floor(n: int, r: int)
    requires
        is_sqrt_floor(n, r),
    ensures
        sqrt_floor(n) == r,
{
    let c = choose|c: int| is_sqrt_floor(n, c);
    assert(is_sqrt_floor(n, c));
    assert(c == r) by {
        if c < r {
            assert((c + 1) * (c + 1) <= r * r) by (nonlinear_arith)
                requires 0 <= c, 0 <= r, c + 1 <= r;
        }
        if r < c {
            assert((r + 1) * (r + 1) <= c * c) by (nonlinear_arith)
                requires 0 <= c, 0 <= r, r + 1 <= c;
        }
    };
}

/// Every non-negative integer has an integer square root.
pub proof fn lemma_sqrt_floor_exists(n: int)
    requires
        n >= 0,
    ensures
        is_sqrt_floor(n, sqrt_floor(n)),
    decreases n,
{
    if n == 0 {
        assert(is_sqrt_floor(0, 0));
    } else {
        lemma_sqrt_floor_exists(n - 1);
        let r = sqrt_floor(n - 1);
        if (r + 1) * (r + 1) <= n {
            assert(n < (r + 2) * (r + 2)) by (nonlinear_arith)
                requires 0 <= r, n - 1 < (r + 1) * (r + 1);
            assert(is_sqrt_floor(n, r + 1));
        } else {
            assert(is_sqrt_floor(n, r));
        }
    }
    assert(exists|r: int| is_sqrt_floor(n, r));
}

/// The scaled product keeps the sign of `a * b`.
pub proof fn lemma_muldiv_s_sign(a: int, b: int, d: int)
    requires
        d > 0,
    ensures
        a >= 0 && b >= 0 ==> muldiv_s(a, b, d) >= 0,
        a >= 0 && b <= 0 ==> muldiv_s(a, b, d) <= 0,
        a <= 0 && b >= 0 ==> muldiv_s(a, b, d) <= 0,
        a <= 0 && b <= 0 ==> muldiv_s(a, b, d) >= 0,
{
    assert((a >= 0 && b >= 0 ==> a * b >= 0) && (a >= 0 && b <= 0 ==> a * b <= 0)
        && (a <= 0 && b >= 0 ==> a * b <= 0) && (a <= 0 && b <= 0 ==> a * b >= 0))
        by (nonlinear_arith);
    let n = a * b;
    if n >= 0 {
        assert(n / d >= 0) by (nonlinear_arith) requires n >= 0, d > 0;
    } else {
        assert((-n) / d >= 0) by (nonlinear_arith) requires -n >= 0, d > 0;
    }
}

/// A 2D vector in milli-units.
#[derive(Clone, Copy, PartialEq, Eq, Structural, Debug)]
pub struct Vec2 {
    pub x: i64,
    pub y: i64,
}

impl Vec2 {
    /// Both components inside the saturation range.
    pub open spec fn wf(self) -> bool {
        &&& -LIMIT <= self.x <= LIMIT
        &&& -LIMIT <= self.y <= LIMIT
    }

    pub fn new(x: i64, y: i64) -> (r: Vec2)
        ensures
            r.x == x,
            r.y == y,
    {
        Vec2 { x, y }
    }

    pub fn zero() -> (r: Vec2)
        ensures
            r.x == 0,
            r.y == 0,
    {
        Vec2 { x: 0, y: 0 }
    }
}

/// Saturated addition of two in-range values.
pub fn sat_add(a: i64, b: i64) -> (r: i64)
    requires
        -LIMIT <= a <= LIMIT,
        -LIMIT <= b <= LIMIT,
    ensures
        r == sat_add_s(a as int, b as int),
        -LIMIT <= r <= LIMIT,
{
    let s: i64 = a + b;
    if s > LIMIT {
        LIMIT
    } else if s < -LIMIT {
        -LIMIT
    } else {
        s
    }
}

/// Scaled product `a * b / d`, truncated toward zero, saturated to `LIMIT`.
/// All divisions of the movement code go through here, on magnitudes, so the
/// machine division is the unsigned one.
pub fn muldiv(a: i64, b: i64, d: i64) -> (r: i64)
    requires
        -ARG_LIMIT <= a <= ARG_LIMIT,
        -ARG_LIMIT <= b <= ARG_LIMIT,
        0 < d <= ARG_LIMIT,
    ensures
        r == muldiv_s(a as int, b as int, d as int),
        -LIMIT <= r <= LIMIT,
{
    let neg: bool = (a < 0) != (b < 0);
    let am: u64 = if a < 0 { (-a) as u64 } else { a as u64 };
    let bm: u64 = if b < 0 { (-b) as u64 } else { b as u64 };
    proof {
        assert(am * bm <= u128::MAX) by (nonlinear_arith)
            requires am <= ARG_LIMIT as u64, bm <= ARG_LIMIT as u64;
    }
    let p: u128 = (am as u128) * (bm as u128);
    let q: u128 = p / (d as u128);
    proof {
        assert(am * bm == (if a * b >= 0 { a * b } else { -(a * b) })) by (nonlinear_arith)
            requires
                am == (if a < 0 { -a } else { a as int }),
                bm == (if b < 0 { -b } else { b as int });
        assert(((a < 0) != (b < 0)) ==> a * b <= 0) by (nonlinear_arith);
        assert(((a < 0) == (b < 0)) ==> a * b >= 0) by (nonlinear_arith);
        if a * b >= 0 {
            assert(tdiv(a * b, d as int) == q);
        } else {
            assert(tdiv(a * b, d as int) == -(q as int));
        }
    }
    let m: i64 = if q > (LIMIT as u128) { LIMIT } else { q as i64 };
    if neg {
        -m
    } else {
        m
    }
}

/// Integer square root, rounded down.
pub fn isqrt(n: u128) -> (r: u64)
    ensures
        is_sqrt_floor(n as int, r as int),
{
    let mut lo: u128 = 0;
    let mut hi: u128 = u64::MAX as u128;
    proof {
        assert((u64::MAX as int + 1) * (u64::MAX as int + 1) > u128::MAX as int) by (nonlinear_arith);
    }
    while lo < hi
        invariant
            lo <= hi,
            hi <= u64::MAX as u128,
            lo * lo <= n,
            n < (hi + 1) * (hi + 1),
        decreases hi - lo,
    {
        let mid: u128 = lo + (hi - lo + 1) / 2;
        proof {
            assert(mid * mid <= u128::MAX) by (nonlinear_arith)
                requires mid <= u64::MAX as u128;
        }
        if mid * mid <= n {
            lo = mid;
        } else {
            hi = mid - 1;
        }
    }
    lo as u64
}

/// Squared Euclidean distance, in squared milli-units.
pub open spec fn dist_sq(a: Vec2, b: Vec2) -> int {
    (b.x - a.x) * (b.x - a.x) + (b.y - a.y) * (b.y - a.y)
}

/// Euclidean distance in milli-units, rounded down and saturated.
pub open spec fn dist_s(a: Vec2, b: Vec2) -> int {
    clip(sqrt_floor(dist_sq(a, b)))
}

/// Euclidean distance between two points; differences of in-range values
/// are accepted as coordinates too.
pub fn dist(a: Vec2, b: Vec2) -> (r: i64)
    requires
        -2 * LIMIT <= a.x <= 2 * LIMIT,
        -2 * LIMIT <= a.y <= 2 * LIMIT,
        -2 * LIMIT <= b.x <= 2 * LIMIT,
        -2 * LIMIT <= b.y <= 2 * LIMIT,
    ensures
        r == dist_s(a, b),
        0 <= r <= LIMIT,
{
    let dx: i64 = b.x - a.x;
    let dy: i64 = b.y - a.y;
    let dxm: u64 = if dx < 0 { (-dx) as u64 } else { dx as u64 };
    let dym: u64 = if dy < 0 { (-dy) as u64 } else { dy as u64 };
    proof {
        assert(dxm * dxm + dym * dym <= u128::MAX) by (nonlinear_arith)
            requires dxm <= ARG_LIMIT as u64, dym <= ARG_LIMIT as u64;
    }
    let s: u128 = (dxm as u128) * (dxm as u128) + (dym as u128) * (dym as u128);
    proof {
        assert(dxm * dxm == dx * dx && dym * dym == dy * dy) by (nonlinear_arith)
            requires
                dxm == (if dx < 0 { -dx } else { dx as int }),
                dym == (if dy < 0 { -dy } else { dy as int });
    }
    let r64: u64 = isqrt(s);
    proof {
        lemma_sqrt_floor(s as int, r64 as int);
    }
    if r64 > LIMIT as u64 {
        LIMIT
    } else {
        r64 as i64
    }
}

/// Direction of `v` as a milli-unit vector (length about `SCALE`), or zero
/// when `v` has no direction.
pub open spec fn norm_s(v: Vec2) -> Vec2 {
    let d = dist_s(Vec2 { x: 0, y: 0 }, v);
    if d <= 0 {
        Vec2 { x: 0, y: 0 }
    } else {
        Vec2 {
            x: muldiv_s(v.x as int, SCALE as int, d) as i64,
            y: muldiv_s(v.y as int, SCALE as int, d) as i64,
        }
    }
}

/// Normalize `v` to milli-units, or return zero for the zero vector.
/// Accepts differences of in-range points.
pub fn norm_or_zero(v: Vec2) -> (r: Vec2)
    requires
        -2 * LIMIT <= v.x <= 2 * LIMIT,
        -2 * LIMIT <= v.y <= 2 * LIMIT,
    ensures
        r == norm_s(v),
        r.wf(),
{
    let d: i64 = dist(Vec2 { x: 0, y: 0 }, v);
    if d <= 0 {
        Vec2 { x: 0, y: 0 }
    } else {
        Vec2 { x: muldiv(v.x, SCALE, d), y: muldiv(v.y, SCALE, d) }
    }
}

/// Growth curve of the far grapple spring: the distance excess raised to the
/// power 13/8 (the nearest eighth to the designer's 1.65 curve), in fixed
/// point, computed with three integer square roots.
pub open spec fn spring_pow_s(d: int) -> int {
    let s = sqrt_floor(1000 * d);
    let q = sqrt_floor(1000 * s);
    let e = sqrt_floor(1000 * q);
    muldiv_s(muldiv_s(d, s, 1000), e, 1000)
}

/// Fixed-point `(d / SCALE) ^ (13/8) * SCALE` for a milli-unit distance `d`.
pub fn spring_pow(d: i64) -> (r: i64)
    requires
        0 <= d <= LIMIT,
    ensures
        r == spring_pow_s(d as int),
        0 <= r <= LIMIT,
{
    let s: u64 = isqrt((d as u128) * 1000);
    proof {
        lemma_sqrt_floor((d as int) * 1000, s as int);
        assert(s <= ARG_LIMIT as u64) by (nonlinear_arith)
            requires s * s <= 1000 * LIMIT;
    }
    let q: u64 = isqrt((s as u128) * 1000);
    proof {
        lemma_sqrt_floor((s as int) * 1000, q as int);
        assert(q <= ARG_LIMIT as u64) by (nonlinear_arith)
            requires q * q <= 1000 * ARG_LIMIT;
    }
    let e: u64 = isqrt((q as u128) * 1000);
    proof {
        lemma_sqrt_floor((q as int) * 1000, e as int);
        assert(e <= ARG_LIMIT as u64) by (nonlinear_arith)
            requires e * e <= 1000 * ARG_LIMIT;
    }
    let t: i64 = muldiv(d, s as i64, SCALE);
    muldiv(t, e as i64, SCALE)
}

} // verus!
