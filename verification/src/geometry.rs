//! Pointer-to-anchor distance: the spatial rule that decides which station a
//! carried item is offered to.
//!
//! Every station that takes part in delivery matching carries a
//! [`DeliveryAnchor`]: an offset from the station's position, a vertical band
//! height, and a squared acceptance radius.  The distance from the pointer to
//! the anchor point is the squared Euclidean distance, with a vertical clamp:
//! a pointer above the band is measured from the top of the band, a pointer
//! inside the band is measured purely horizontally at the anchor's height,
//! and a pointer below the anchor is measured directly.

use vstd::prelude::*;

verus! {

/// Per-station acceptance geometry, attached to any station entity that can
/// source or receive a delivery.
#[derive(Clone, Copy, PartialEq, Eq, Structural)]
pub struct DeliveryAnchor {
    /// Horizontal offset of the anchor point from the station's position.
    pub x: i32,
    /// Vertical offset of the anchor point from the station's position.
    pub y: i32,
    /// Height of the vertical band above the anchor point.
    pub height: i32,
    /// Squared acceptance radius; a drop or pick-up succeeds only strictly
    /// inside it.
    pub distance_sq: i64,
}

impl DeliveryAnchor {
    pub fn new(x: i32, y: i32, height: i32, distance_sq: i64) -> (r: DeliveryAnchor)
        requires
            height >= 0,
            distance_sq >= 0,
        ensures
            r == (DeliveryAnchor { x, y, height, distance_sq }),
    {
        DeliveryAnchor { x, y, height, distance_sq }
    }
}

/// The pointer's vertical coordinate after the clamp against a band of height
/// `h` above the anchor's vertical coordinate `ay`.
pub open spec fn clamped_pointer_y(py: int, ay: int, h: int) -> int {
    if py > ay + h {
        py - h
    } else if py > ay {
        ay
    } else {
        py
    }
}

/// Squared distance from the pointer `(px, py)` to the anchor point
/// `(ax, ay)`, measured after the vertical clamp.
pub open spec fn spec_anchor_dist_sq(px: int, py: int, ax: int, ay: int, h: int) -> int {
    let ey = clamped_pointer_y(py, ay, h);
    (px - ax) * (px - ax) + (ey - ay) * (ey - ay)
}

/// Distance from the pointer to the anchor of a station standing at
/// `(sx, sy)`; the anchor point is the station's position plus the anchor's
/// offset.
pub fn anchor_distance_sq(px: i32, py: i32, sx: i32, sy: i32, anchor: &DeliveryAnchor) -> (r: i128)
    ensures
        r == spec_anchor_dist_sq(
            px as int,
            py as int,
            sx + anchor.x,
            sy + anchor.y,
            anchor.height as int,
        ),
{
    let ax: i64 = sx as i64 + anchor.x as i64;
    let ay: i64 = sy as i64 + anchor.y as i64;
    let h: i64 = anchor.height as i64;
    let ey: i64 = if py as i64 > ay + h {
        py as i64 - h
    } else if py as i64 > ay {
        ay
    } else {
        py as i64
    };
    let dx: i128 = px as i128 - ax as i128;
    let dy: i128 = ey as i128 - ay as i128;
    proof {
        let b = 0x2_0000_0000_0000int;
        assert(-b <= dx <= b);
        assert(-b <= dy <= b);
        assert(0 <= dx * dx <= b * b && 0 <= dy * dy <= b * b) by (nonlinear_arith)
            requires
                -b <= dx <= b,
                -b <= dy <= b,
                b == 0x2_0000_0000_0000int,
        ;
    }
    dx * dx + dy * dy
}

/// Squared Euclidean distance between two points.
pub open spec fn spec_dist_sq(x1: int, y1: int, x2: int, y2: int) -> int {
    (x2 - x1) * (x2 - x1) + (y2 - y1) * (y2 - y1)
}

/// Squared Euclidean distance between two world points.
pub fn dist_sq(x1: i32, y1: i32, x2: i32, y2: i32) -> (r: i128)
    ensures
        r == spec_dist_sq(x1 as int, y1 as int, x2 as int, y2 as int),
        r >= 0,
{
    let dx: i128 = x2 as i128 - x1 as i128;
    let dy: i128 = y2 as i128 - y1 as i128;
    proof {
        let b = 0x1_0000_0000int;
        assert(-b <= dx <= b);
        assert(-b <= dy <= b);
        assert(0 <= dx * dx <= b * b && 0 <= dy * dy <= b * b) by (nonlinear_arith)
            requires
                -b <= dx <= b,
                -b <= dy <= b,
                b == 0x1_0000_0000int,
        ;
    }
    dx * dx + dy * dy
}

/// The integer square root: the largest `r` with `r * r <= n`.
pub open spec fn is_isqrt(n: int, r: int) -> bool {
    &&& 0 <= r
    &&& r * r <= n
    &&& n < (r + 1) * (r + 1)
}

/// The integer square root as a value, pinned by its characterization.
pub open spec fn spec_isqrt(n: int) -> int {
    choose|r: int| is_isqrt(n, r)
}

/// The characterization admits one root only.
pub proof fn lemma_isqrt_unique(n: int, r1: int, r2: int)
    requires
        is_isqrt(n, r1),
        is_isqrt(n, r2),
    ensures
        r1 == r2,
{
    if r1 < r2 {
        assert(r2 * r2 > n) by (nonlinear_arith)
            requires
                r1 + 1 <= r2,
                0 <= r1,
                n < (r1 + 1) * (r1 + 1),
        ;
    }
    if r2 < r1 {
        assert(r1 * r1 > n) by (nonlinear_arith)
            requires
                r2 + 1 <= r1,
                0 <= r2,
                n < (r2 + 1) * (r2 + 1),
        ;
    }
}

/// Division truncated toward zero, as the machine divides; division by zero
/// is read as zero.
pub open spec fn trunc_div(a: int, b: int) -> int {
    if b == 0 {
        0
    } else {
        let q = (vstd::math::abs(a) / vstd::math::abs(b)) as int;
        if (a < 0) <==> (b < 0) {
            q
        } else {
            -q
        }
    }
}

/// An integer clamped into the `i64` range.
pub open spec fn clamp_i64(v: int) -> int {
    if v > i64::MAX {
        i64::MAX as int
    } else if v < i64::MIN {
        i64::MIN as int
    } else {
        v
    }
}

/// Compute the integer square root by bisection.
pub fn isqrt(n: u128) -> (r: u128)
    ensures
        is_isqrt(n as int, r as int),
        r as int == spec_isqrt(n as int),
{
    let mut lo: u128 = 0;
    let mut hi: u128 = 0x1_0000_0000_0000_0000;
    proof {
        assert((hi as int) * (hi as int) > n as int) by (nonlinear_arith)
            requires
                hi == 0x1_0000_0000_0000_0000u128,
                n <= u128::MAX,
        ;
    }
    while lo + 1 < hi
        invariant
            0 <= lo < hi <= 0x1_0000_0000_0000_0000,
            (lo as int) * (lo as int) <= n as int,
            (n as int) < (hi as int) * (hi as int),
        decreases hi - lo,
    {
        let mid: u128 = lo + (hi - lo) / 2;
        proof {
            assert(lo < mid < hi);
            assert((mid as int) * (mid as int) < 0x1_0000_0000_0000_0000_0000_0000_0000_0000int)
                by (nonlinear_arith)
                requires
                    0 <= mid < 0x1_0000_0000_0000_0000u128,
            ;
        }
        if mid * mid <= n {
            lo = mid;
        } else {
            hi = mid;
        }
    }
    proof {
        assert(is_isqrt(n as int, lo as int));
        assert(exists|r: int| is_isqrt(n as int, r));
        let w = choose|r: int| is_isqrt(n as int, r);
        lemma_isqrt_unique(n as int, w, lo as int);
    }
    lo
}

/// `b` lies between `a` and `c`.
pub open spec fn between(a: int, b: int, c: int) -> bool {
    (a <= b <= c) || (c <= b <= a)
}

/// The farthest anything is allowed to travel in one tick, in world units;
/// far beyond any map, it only guards the arithmetic.
pub const MAX_STEP_LEN: i64 = 0x2_0000_0000;

/// How far something moving at `speed` world units per second travels in a
/// tick of `dt` milliseconds, capped at `MAX_STEP_LEN`.
pub open spec fn spec_step_len(speed: int, dt: int) -> int {
    let raw = dt * speed / 1000;
    if raw > MAX_STEP_LEN {
        MAX_STEP_LEN as int
    } else {
        raw
    }
}

/// The distance covered in one tick, computed with the cap.
pub fn step_len(speed: i64, dt: i64) -> (r: i64)
    requires
        0 <= speed,
        0 < dt,
    ensures
        r == spec_step_len(speed as int, dt as int),
        0 <= r <= MAX_STEP_LEN,
{
    proof {
        let p = (dt as int) * (speed as int);
        assert(0 <= p <= 0x8000_0000_0000_0000 * 0x8000_0000_0000_0000) by (nonlinear_arith)
            requires
                0 < dt <= 0x8000_0000_0000_0000,
                0 <= speed <= 0x8000_0000_0000_0000,
                p == (dt as int) * (speed as int),
        ;
        vstd::arithmetic::div_mod::lemma_div_is_ordered(0, p, 1000);
        vstd::arithmetic::div_mod::lemma_basic_div(0, 1000);
    }
    let raw: i128 = (dt as i128) * (speed as i128) / 1000;
    if raw > MAX_STEP_LEN as i128 {
        MAX_STEP_LEN
    } else {
        raw as i64
    }
}

/// Where one step of `step` world units along the straight line toward
/// `(tx, ty)` lands: each axis moves by its share of the step, the delta
/// scaled by `step` over the Euclidean distance, rounded down; a mover
/// already at the target stays put.
pub open spec fn spec_step_toward(px: int, py: int, tx: int, ty: int, step: int) -> (int, int) {
    let dx = tx - px;
    let dy = ty - py;
    let adx = vstd::math::abs(dx) as int;
    let ady = vstd::math::abs(dy) as int;
    let d = spec_isqrt(adx * adx + ady * ady);
    if d == 0 {
        (px, py)
    } else {
        let mx = adx * step / d;
        let my = ady * step / d;
        (
            if dx >= 0 {
                px + mx
            } else {
                px - mx
            },
            if dy >= 0 {
                py + my
            } else {
                py - my
            },
        )
    }
}

/// Move `(px, py)` toward `(tx, ty)` by `step` world units along the
/// straight line: exactly the landing point of [`spec_step_toward`], which
/// never overshoots on either axis.  Meant for a mover whose remaining
/// distance is at least the step.
pub fn step_toward(px: i32, py: i32, tx: i32, ty: i32, step: i64) -> (r: (i32, i32))
    requires
        0 <= step <= MAX_STEP_LEN,
        (step as int) * (step as int) <= spec_dist_sq(px as int, py as int, tx as int, ty as int),
    ensures
        (r.0 as int, r.1 as int) == spec_step_toward(
            px as int,
            py as int,
            tx as int,
            ty as int,
            step as int,
        ),
        between(px as int, r.0 as int, tx as int),
        between(py as int, r.1 as int, ty as int),
{
    let dx: i64 = tx as i64 - px as i64;
    let dy: i64 = ty as i64 - py as i64;
    let axs: i64 = if dx >= 0 {
        dx
    } else {
        -dx
    };
    let ays: i64 = if dy >= 0 {
        dy
    } else {
        -dy
    };
    let adx: u128 = axs as u128;
    let ady: u128 = ays as u128;
    proof {
        let b = 0x1_0000_0000int;
        assert(adx <= b && ady <= b);
        assert(0 <= adx * adx <= b * b && 0 <= ady * ady <= b * b) by (nonlinear_arith)
            requires
                0 <= adx <= b,
                0 <= ady <= b,
                b == 0x1_0000_0000int,
        ;
        assert((adx as int) * (adx as int) == (dx as int) * (dx as int) && (ady as int) * (
        ady as int) == (dy as int) * (dy as int)) by (nonlinear_arith)
            requires
                adx == if dx >= 0 {
                    dx as int
                } else {
                    -(dx as int)
                },
                ady == if dy >= 0 {
                    dy as int
                } else {
                    -(dy as int)
                },
        ;
    }
    let dist = isqrt(adx * adx + ady * ady);
    if dist == 0 {
        return (px, py);
    }
    proof {
        let d = dist as int;
        let s = step as int;
        let ax = adx as int;
        let ay = ady as int;
        let n = ax * ax + ay * ay;
        lemma_abs_le_isqrt(ax, ay, d);
        lemma_abs_le_isqrt(ay, ax, d);
        assert(s <= d) by (nonlinear_arith)
            requires
                0 <= s,
                s * s <= n,
                is_isqrt(n, d),
        ;
        assert(0 <= ax * s <= 0x1_0000_0000 * (MAX_STEP_LEN as int) && 0 <= ay * s <= 0x1_0000_0000
            * (MAX_STEP_LEN as int)) by (nonlinear_arith)
            requires
                0 <= ax <= 0x1_0000_0000,
                0 <= ay <= 0x1_0000_0000,
                0 <= s <= MAX_STEP_LEN,
        ;
    }
    let mxu: u128 = adx * (step as u128) / (dist as u128);
    let myu: u128 = ady * (step as u128) / (dist as u128);
    proof {
        lemma_scaled_move_bounded(adx as int, step as int, dist as int);
        lemma_scaled_move_bounded(ady as int, step as int, dist as int);
    }
    let mx: i64 = mxu as i64;
    let my: i64 = myu as i64;
    let nx: i32 = if dx >= 0 {
        (px as i64 + mx) as i32
    } else {
        (px as i64 - mx) as i32
    };
    let ny: i32 = if dy >= 0 {
        (py as i64 + my) as i32
    } else {
        (py as i64 - my) as i32
    };
    (nx, ny)
}

/// Every non-negative integer has an integer square root.
pub proof fn lemma_isqrt_exists(n: int)
    requires
        n >= 0,
    ensures
        is_isqrt(n, spec_isqrt(n)),
    decreases n,
{
    if n == 0 {
        assert(is_isqrt(0, 0));
    } else {
        lemma_isqrt_exists(n - 1);
        let r = spec_isqrt(n - 1);
        if (r + 1) * (r + 1) <= n {
            assert(n == (r + 1) * (r + 1));
            assert((r + 1) * (r + 1) < (r + 2) * (r + 2)) by (nonlinear_arith)
                requires
                    r >= 0,
            ;
            assert(is_isqrt(n, r + 1));
        } else {
            assert(is_isqrt(n, r));
        }
    }
    let w = choose|r0: int| is_isqrt(n, r0);
    lemma_isqrt_unique(n, w, spec_isqrt(n));
}

/// A projectile step makes progress: from two or more world units per tick
/// and a remaining distance the step does not cover, one step strictly
/// decreases the squared distance to a fixed target, so the travel phase
/// completes in finitely many ticks.  A one-unit step can round both axis
/// shares down to nothing on a diagonal, so the bound asks for two.
pub proof fn lemma_projectile_progress(px: int, py: int, tx: int, ty: int, step: int)
    requires
        2 <= step,
        step * step <= spec_dist_sq(px, py, tx, ty),
    ensures
        ({
            let moved = spec_step_toward(px, py, tx, ty, step);
            spec_dist_sq(moved.0, moved.1, tx, ty) < spec_dist_sq(px, py, tx, ty)
        }),
{
    let dx = tx - px;
    let dy = ty - py;
    let adx = vstd::math::abs(dx) as int;
    let ady = vstd::math::abs(dy) as int;
    let n = adx * adx + ady * ady;
    assert(n == spec_dist_sq(px, py, tx, ty)) by (nonlinear_arith)
        requires
            adx == if dx >= 0 {
                dx
            } else {
                -dx
            },
            ady == if dy >= 0 {
                dy
            } else {
                -dy
            },
            n == adx * adx + ady * ady,
            spec_dist_sq(px, py, tx, ty) == dx * dx + dy * dy,
            dx == tx - px,
            dy == ty - py,
    ;
    lemma_isqrt_exists(n);
    let d = spec_isqrt(n);
    assert(step <= d) by (nonlinear_arith)
        requires
            0 <= step,
            step * step <= n,
            is_isqrt(n, d),
    ;
    lemma_abs_le_isqrt(adx, ady, d);
    lemma_abs_le_isqrt(ady, adx, d);
    let mx = adx * step / d;
    let my = ady * step / d;
    lemma_scaled_move_bounded(adx, step, d);
    lemma_scaled_move_bounded(ady, step, d);
    // The longer axis moves by at least one unit: twice the longer leg
    // covers the hypotenuse's root, and the step is at least two.
    assert(d <= adx + ady) by (nonlinear_arith)
        requires
            is_isqrt(n, d),
            n == adx * adx + ady * ady,
            0 <= adx,
            0 <= ady,
    ;
    assert(d / d == 1) by {
        vstd::arithmetic::div_mod::lemma_fundamental_div_mod_converse_div(d, d, 1, 0);
    }
    if adx >= ady {
        assert(d <= adx * step) by (nonlinear_arith)
            requires
                d <= adx + ady,
                ady <= adx,
                2 <= step,
                0 <= adx,
        ;
        vstd::arithmetic::div_mod::lemma_div_is_ordered(d, adx * step, d);
        assert(mx >= 1);
    } else {
        assert(d <= ady * step) by (nonlinear_arith)
            requires
                d <= adx + ady,
                adx <= ady,
                2 <= step,
                0 <= ady,
        ;
        vstd::arithmetic::div_mod::lemma_div_is_ordered(d, ady * step, d);
        assert(my >= 1);
    }
    let moved = spec_step_toward(px, py, tx, ty, step);
    assert(spec_dist_sq(moved.0, moved.1, tx, ty) == (adx - mx) * (adx - mx) + (ady - my) * (ady
        - my)) by (nonlinear_arith)
        requires
            moved.0 == if dx >= 0 {
                px + mx
            } else {
                px - mx
            },
            moved.1 == if dy >= 0 {
                py + my
            } else {
                py - my
            },
            spec_dist_sq(moved.0, moved.1, tx, ty) == (tx - moved.0) * (tx - moved.0) + (ty
                - moved.1) * (ty - moved.1),
            adx == if dx >= 0 {
                dx
            } else {
                -dx
            },
            ady == if dy >= 0 {
                dy
            } else {
                -dy
            },
            dx == tx - px,
            dy == ty - py,
            0 <= mx <= adx,
            0 <= my <= ady,
    ;
    assert((adx - mx) * (adx - mx) + (ady - my) * (ady - my) < adx * adx + ady * ady)
        by (nonlinear_arith)
        requires
            0 <= mx <= adx,
            0 <= my <= ady,
            mx >= 1 || my >= 1,
    ;
}

/// An axis-aligned leg is no longer than the hypotenuse's integer root.
proof fn lemma_abs_le_isqrt(ax: int, ay: int, d: int)
    requires
        0 <= ax,
        0 <= ay,
        is_isqrt(ax * ax + ay * ay, d),
    ensures
        ax <= d,
{
    if ax > d {
        assert(ax * ax > (d + 1) * (d + 1) - 1) by (nonlinear_arith)
            requires
                ax >= d + 1,
                0 <= d,
        ;
        assert(ay * ay >= 0) by (nonlinear_arith);
    }
}

/// Moving a leg in proportion `step / dist` never moves farther than the
/// leg itself once `step` does not exceed `dist`.
proof fn lemma_scaled_move_bounded(leg: int, step: int, dist: int)
    requires
        0 <= leg <= dist,
        0 <= step <= dist,
        dist > 0,
    ensures
        0 <= leg * step / dist <= leg,
{
    assert(0 <= leg * step <= leg * dist) by (nonlinear_arith)
        requires
            0 <= leg,
            0 <= step <= dist,
    ;
    vstd::arithmetic::div_mod::lemma_div_is_ordered(leg * step, leg * dist, dist);
    vstd::arithmetic::div_mod::lemma_div_is_ordered(0, leg * step, dist);
    assert(leg * dist / dist == leg) by (nonlinear_arith)
        requires
            dist > 0,
    ;
}

/// Translating the pointer and the anchor point by the same vector leaves the
/// anchor distance unchanged.
pub proof fn lemma_anchor_distance_translation(
    px: int,
    py: int,
    ax: int,
    ay: int,
    h: int,
    tx: int,
    ty: int,
)
    ensures
        spec_anchor_dist_sq(px + tx, py + ty, ax + tx, ay + ty, h) == spec_anchor_dist_sq(
            px,
            py,
            ax,
            ay,
            h,
        ),
{
    assert(clamped_pointer_y(py + ty, ay + ty, h) == clamped_pointer_y(py, ay, h) + ty);
}

/// Moving the pointer straight up, away from the anchor along the top of the
/// clamp band, never decreases the anchor distance.
pub proof fn lemma_anchor_distance_monotone_above(
    px: int,
    ax: int,
    ay: int,
    h: int,
    py1: int,
    py2: int,
)
    requires
        h >= 0,
        ay + h < py1 <= py2,
    ensures
        spec_anchor_dist_sq(px, py1, ax, ay, h) <= spec_anchor_dist_sq(px, py2, ax, ay, h),
{
    let e1 = py1 - h - ay;
    let e2 = py2 - h - ay;
    assert(0 < e1 <= e2);
    assert(e1 * e1 <= e2 * e2) by (nonlinear_arith)
        requires
            0 < e1 <= e2,
    ;
}

/// Moving the pointer straight down, away from the anchor below its height,
/// never decreases the anchor distance.
pub proof fn lemma_anchor_distance_monotone_below(
    px: int,
    ax: int,
    ay: int,
    h: int,
    py1: int,
    py2: int,
)
    requires
        h >= 0,
        py2 <= py1 <= ay,
    ensures
        spec_anchor_dist_sq(px, py1, ax, ay, h) <= spec_anchor_dist_sq(px, py2, ax, ay, h),
{
    let e1 = py1 - ay;
    let e2 = py2 - ay;
    assert(e2 <= e1 <= 0);
    assert(e1 * e1 <= e2 * e2) by (nonlinear_arith)
        requires
            e2 <= e1 <= 0,
    ;
}

/// Moving the pointer horizontally away from the anchor never decreases the
/// anchor distance, whatever the vertical clamp does.
pub proof fn lemma_anchor_distance_monotone_horizontal(
    py: int,
    ax: int,
    ay: int,
    h: int,
    px1: int,
    px2: int,
)
    requires
        ax <= px1 <= px2 || px2 <= px1 <= ax,
    ensures
        spec_anchor_dist_sq(px1, py, ax, ay, h) <= spec_anchor_dist_sq(px2, py, ax, ay, h),
{
    let d1 = px1 - ax;
    let d2 = px2 - ax;
    assert(d1 * d1 <= d2 * d2) by (nonlinear_arith)
        requires
            0 <= d1 <= d2 || d2 <= d1 <= 0,
    ;
}

} // verus!
