//! Clamped interpolation: the step the bullet board takes each tick toward
//! its target size and position.
//!
//! `move_towards` returns the signed step to add to the current value; it
//! moves at most `rate` ticks and never lands past the target.

use vstd::prelude::*;
use crate::COORD_LIMIT;
use crate::geom::abs_int;

verus! {

/// The signed step from `start` toward `end`, at most `max(rate, 0)` long
/// and never longer than the remaining distance.
pub open spec fn spec_move_towards(start: int, end: int, rate: int) -> int {
    let dist = abs_int(end - start);
    let step = if rate < 0 {
        0
    } else if rate > dist {
        dist
    } else {
        rate as int
    };
    if end >= start {
        step
    } else {
        -step
    }
}

pub fn move_towards(start: i32, end: i32, rate: i32) -> (r: i32)
    requires
        -COORD_LIMIT <= start <= COORD_LIMIT,
        -COORD_LIMIT <= end <= COORD_LIMIT,
    ensures
        r == spec_move_towards(start as int, end as int, rate as int),
{
    let dist: i32 = if end >= start { end - start } else { start - end };
    let step: i32 = if rate < 0 {
        0
    } else if rate > dist {
        dist
    } else {
        rate
    };
    if end >= start { step } else { -step }
}

/// The law of the scalar step: it never lands past the target, reaches the
/// target exactly as soon as the rate covers the remaining distance, and
/// otherwise closes the distance by exactly the rate.
pub proof fn lemma_move_towards_converges(start: int, end: int, rate: int)
    ensures
        rate >= abs_int(end - start) ==> start + spec_move_towards(start, end, rate) == end,
        start <= end ==> start <= start + spec_move_towards(start, end, rate) <= end,
        end <= start ==> end <= start + spec_move_towards(start, end, rate) <= start,
        abs_int(end - (start + spec_move_towards(start, end, rate)))
            <= abs_int(end - start),
        rate >= 0 ==> abs_int(end - (start + spec_move_towards(start, end, rate)))
            == if rate >= abs_int(end - start) { 0int } else { abs_int(end - start) - rate },
{
}

/// Integer square root by bisection; sized for the squared distances the
/// board geometry can produce.
pub fn isqrt(n: u64) -> (r: u64)
    requires
        n < 0x1_0000_0000_0000,
    ensures
        r * r <= n < (r + 1) * (r + 1),
        r < 0x1_000_000,
{
    let mut lo: u64 = 0;
    let mut hi: u64 = 0x1_000_000;
    assert(hi * hi > n) by (nonlinear_arith)
        requires
            hi == 0x1_000_000,
            n < 0x1_0000_0000_0000,
    ;
    while lo + 1 < hi
        invariant
            lo < hi <= 0x1_000_000,
            lo * lo <= n,
            hi * hi > n,
        decreases hi - lo,
    {
        let mid: u64 = lo + (hi - lo) / 2;
        proof {
            assert(mid * mid <= 0x1_0000_0000_0000) by (nonlinear_arith)
                requires
                    0 <= mid <= 0x1_000_000,
            ;
        }
        if mid * mid <= n {
            lo = mid;
        } else {
            hi = mid;
        }
    }
    lo
}

/// Division rounded half away from zero, for a non-negative divisor.
pub open spec fn spec_round_div(a: int, b: int) -> int
    recommends
        b >= 1,
{
    if a >= 0 {
        (2 * a + b) / (2 * b)
    } else {
        -((2 * (-a) + b) / (2 * b))
    }
}

pub(crate) fn round_div(a: i64, b: i64) -> (r: i64)
    requires
        1 <= b <= 0x1_0000_0000,
        -0x1_0000_0000_0000 <= a <= 0x1_0000_0000_0000,
    ensures
        r == spec_round_div(a as int, b as int),
{
    if a >= 0 {
        (2 * a + b) / (2 * b)
    } else {
        -((2 * (-a) + b) / (2 * b))
    }
}

/// The rounded share `round(d * rate / len)` never exceeds `d` in magnitude
/// and keeps its sign, whenever `0 <= rate <= len`.
proof fn lemma_round_share_bounded(d: int, rate: int, len: int)
    requires
        1 <= len,
        0 <= rate <= len,
    ensures
        abs_int(spec_round_div(d * rate, len)) <= abs_int(d),
        d >= 0 ==> spec_round_div(d * rate, len) >= 0,
        d <= 0 ==> spec_round_div(d * rate, len) <= 0,
{
    if d >= 0 {
        assert(2 * (d * rate) + len < 2 * len * (d + 1)) by (nonlinear_arith)
            requires
                1 <= len,
                0 <= rate <= len,
                d >= 0,
        ;
        assert((2 * (d * rate) + len) / (2 * len) <= d) by (nonlinear_arith)
            requires
                1 <= len,
                2 * (d * rate) + len < 2 * len * (d + 1),
                d * rate >= 0,
        ;
        assert((2 * (d * rate) + len) / (2 * len) >= 0) by (nonlinear_arith)
            requires
                1 <= len,
                d * rate >= 0,
        ;
    } else if rate == 0 {
        assert(d * rate == 0) by (nonlinear_arith)
            requires
                rate == 0,
        ;
        assert((2 * 0 + len) / (2 * len) == 0) by (nonlinear_arith)
            requires
                1 <= len,
        ;
    } else {
        let e = -d;
        assert(d * rate == -(e * rate) && e * rate > 0) by (nonlinear_arith)
            requires
                e == -d,
                e > 0,
                rate > 0,
        ;
        assert(2 * (e * rate) + len < 2 * len * (e + 1)) by (nonlinear_arith)
            requires
                1 <= len,
                0 <= rate <= len,
                e >= 0,
        ;
        assert((2 * (e * rate) + len) / (2 * len) <= e) by (nonlinear_arith)
            requires
                1 <= len,
                2 * (e * rate) + len < 2 * len * (e + 1),
                e * rate >= 0,
        ;
        assert((2 * (e * rate) + len) / (2 * len) >= 0) by (nonlinear_arith)
            requires
                1 <= len,
                e * rate >= 0,
        ;
    }
}

/// One rounded share's magnitude, as the division spells it out.
proof fn lemma_round_share_magnitude(d: int, rate: int, len: int)
    requires
        1 <= len,
        1 <= rate,
    ensures
        abs_int(spec_round_div(d * rate, len)) == (2 * (abs_int(d) * rate) + len) / (2 * len),
{
    let ad = abs_int(d);
    if d >= 0 {
        assert(d * rate == ad * rate && ad * rate >= 0) by (nonlinear_arith)
            requires
                ad == d,
                0 <= d,
                1 <= rate,
        ;
        assert((2 * (ad * rate) + len) / (2 * len) >= 0) by (nonlinear_arith)
            requires
                1 <= len,
                0 <= ad * rate,
        ;
    } else {
        assert(d * rate == -(ad * rate) && ad * rate > 0) by (nonlinear_arith)
            requires
                ad == -d,
                d < 0,
                1 <= rate,
        ;
        assert((2 * (ad * rate) + len) / (2 * len) >= 0) by (nonlinear_arith)
            requires
                1 <= len,
                0 <= ad * rate,
        ;
    }
}

/// The two shares of one diagonal step: each is signed toward its target,
/// no longer than its axis' remaining distance, no longer than the rate —
/// and together they cover at least the rate, because the two axis
/// distances together cover the Euclidean length.
proof fn lemma_vec_step_shares(dx: int, dy: int, rate: int, len: int)
    requires
        1 <= rate <= len,
        len * len <= dx * dx + dy * dy,
        dx * dx + dy * dy < (len + 1) * (len + 1),
    ensures
        abs_int(spec_round_div(dx * rate, len)) <= abs_int(dx),
        abs_int(spec_round_div(dy * rate, len)) <= abs_int(dy),
        dx >= 0 ==> spec_round_div(dx * rate, len) >= 0,
        dx <= 0 ==> spec_round_div(dx * rate, len) <= 0,
        dy >= 0 ==> spec_round_div(dy * rate, len) >= 0,
        dy <= 0 ==> spec_round_div(dy * rate, len) <= 0,
        abs_int(spec_round_div(dx * rate, len)) <= rate,
        abs_int(spec_round_div(dy * rate, len)) <= rate,
        abs_int(spec_round_div(dx * rate, len)) + abs_int(spec_round_div(dy * rate, len))
            >= rate,
{
    lemma_round_share_bounded(dx, rate, len);
    lemma_round_share_bounded(dy, rate, len);
    let adx = abs_int(dx);
    let ady = abs_int(dy);
    assert(adx == dx || adx == -dx);
    assert(ady == dy || ady == -dy);
    assert(dx * dx == adx * adx && dy * dy == ady * ady) by (nonlinear_arith)
        requires
            adx == dx || adx == -dx,
            ady == dy || ady == -dy,
    ;
    assert(adx <= len && ady <= len) by (nonlinear_arith)
        requires
            adx * adx + ady * ady < (len + 1) * (len + 1),
            0 <= adx,
            0 <= ady,
            0 <= len,
    ;
    // With the distance and rate roles swapped, the same share bound caps
    // each axis' share at the rate.
    let dsx = if dx >= 0 { rate } else { -rate };
    assert(dsx * adx == dx * rate) by (nonlinear_arith)
        requires
            (dx >= 0 && dsx == rate && adx == dx) || (dx < 0 && dsx == -rate && adx == -dx),
    ;
    lemma_round_share_bounded(dsx, adx, len);
    assert(abs_int(spec_round_div(dx * rate, len)) <= rate);
    let dsy = if dy >= 0 { rate } else { -rate };
    assert(dsy * ady == dy * rate) by (nonlinear_arith)
        requires
            (dy >= 0 && dsy == rate && ady == dy) || (dy < 0 && dsy == -rate && ady == -dy),
    ;
    lemma_round_share_bounded(dsy, ady, len);
    assert(abs_int(spec_round_div(dy * rate, len)) <= rate);
    // Together the shares cover the rate: the axis distances sum to at
    // least the length, and rounding loses less than one per axis.
    lemma_round_share_magnitude(dx, rate, len);
    lemma_round_share_magnitude(dy, rate, len);
    let a1 = 2 * (adx * rate) + len;
    let a2 = 2 * (ady * rate) + len;
    let q1 = a1 / (2 * len);
    let q2 = a2 / (2 * len);
    assert((adx + ady) * (adx + ady) >= adx * adx + ady * ady) by (nonlinear_arith)
        requires
            0 <= adx,
            0 <= ady,
    ;
    assert(len <= adx + ady) by (nonlinear_arith)
        requires
            len * len <= (adx + ady) * (adx + ady),
            0 <= len,
            0 <= adx + ady,
    ;
    assert(adx * rate + ady * rate >= len * rate) by (nonlinear_arith)
        requires
            adx + ady >= len,
            rate >= 0,
    ;
    vstd::arithmetic::div_mod::lemma_fundamental_div_mod(a1, 2 * len);
    vstd::arithmetic::div_mod::lemma_mod_bound(a1, 2 * len);
    vstd::arithmetic::div_mod::lemma_fundamental_div_mod(a2, 2 * len);
    vstd::arithmetic::div_mod::lemma_mod_bound(a2, 2 * len);
    assert((2 * len) * (q1 + q2) == (2 * len) * q1 + (2 * len) * q2) by (nonlinear_arith);
    assert((2 * len) * (q1 + q2) >= 2 * (len * rate) - 2 * len + 2);
    assert(q1 + q2 >= rate) by (nonlinear_arith)
        requires
            (2 * len) * (q1 + q2) >= 2 * (len * rate) - 2 * len + 2,
            len >= 1,
    ;
}

/// The two-dimensional step toward a target: at most `rate` ticks along
/// each axis, never landing past the target on either.  It arrives
/// exactly once the rate covers the distance; otherwise it moves along
/// the line toward the target, closing the Manhattan distance by at
/// least the rate each call.
pub fn move_towards_vec(
    start_x: i32, start_y: i32, end_x: i32, end_y: i32, rate: i32,
) -> (r: (i32, i32))
    requires
        -COORD_LIMIT <= start_x <= COORD_LIMIT,
        -COORD_LIMIT <= start_y <= COORD_LIMIT,
        -COORD_LIMIT <= end_x <= COORD_LIMIT,
        -COORD_LIMIT <= end_y <= COORD_LIMIT,
    ensures
        rate <= 0 ==> r.0 == 0 && r.1 == 0,
        rate >= 0 ==> -rate <= r.0 <= rate && -rate <= r.1 <= rate,
        start_x <= end_x ==> start_x <= start_x + r.0 <= end_x,
        end_x <= start_x ==> end_x <= start_x + r.0 <= start_x,
        start_y <= end_y ==> start_y <= start_y + r.1 <= end_y,
        end_y <= start_y ==> end_y <= start_y + r.1 <= start_y,
        rate >= 0 && (end_x - start_x) * (end_x - start_x)
            + (end_y - start_y) * (end_y - start_y) <= rate * rate
            ==> r.0 == end_x - start_x && r.1 == end_y - start_y,
        rate >= 1 && (end_x - start_x) * (end_x - start_x)
            + (end_y - start_y) * (end_y - start_y) > rate * rate
            ==> abs_int(end_x - (start_x + r.0)) + abs_int(end_y - (start_y + r.1))
                <= abs_int(end_x - start_x) + abs_int(end_y - start_y) - rate,
{
    if rate <= 0 {
        proof {
            let ddx = end_x - start_x as int;
            let ddy = end_y - start_y as int;
            assert(ddx * ddx + ddy * ddy <= 0 ==> ddx == 0 && ddy == 0) by (nonlinear_arith);
        }
        return (0, 0);
    }
    let dx: i64 = end_x as i64 - start_x as i64;
    let dy: i64 = end_y as i64 - start_y as i64;
    proof {
        assert(dx * dx + dy * dy <= 8_000_000_000_000 && dx * dx >= 0 && dy * dy >= 0)
            by (nonlinear_arith)
            requires
                -2_000_000 <= dx <= 2_000_000,
                -2_000_000 <= dy <= 2_000_000,
        ;
    }
    let dist2: i64 = dx * dx + dy * dy;
    let rate64: i64 = rate as i64;
    if rate64 >= 3_000_000 {
        proof {
            assert(dist2 <= rate64 * rate64) by (nonlinear_arith)
                requires
                    rate64 >= 3_000_000,
                    dist2 <= 8_000_000_000_000,
            ;
        }
        return (dx as i32, dy as i32);
    }
    proof {
        assert(0 <= rate64 * rate64 <= 9_000_000_000_000) by (nonlinear_arith)
            requires
                0 < rate64 < 3_000_000,
        ;
    }
    if dist2 <= rate64 * rate64 {
        proof {
            assert(-rate64 <= dx <= rate64 && -rate64 <= dy <= rate64) by (nonlinear_arith)
                requires
                    dx * dx <= rate64 * rate64,
                    dy * dy <= rate64 * rate64,
                    rate64 >= 0,
            ;
        }
        return (dx as i32, dy as i32);
    }
    let len: u64 = isqrt(dist2 as u64);
    proof {
        // A rate above `len` would square to at least `(len + 1) * (len + 1)`,
        // which already exceeds the squared distance of this branch.
        let li = len as int;
        let ri = rate64 as int;
        let d2 = dist2 as int;
        assert(li * li <= d2);
        assert(d2 < (li + 1) * (li + 1));
        if li < ri {
            assert((li + 1) * (li + 1) <= ri * ri) by (nonlinear_arith)
                requires
                    li + 1 <= ri,
                    0 <= li,
            ;
            assert(false);
        }
        if li == 0 {
            assert(false);
        }
    }
    let len64: i64 = len as i64;
    proof {
        assert(-8_000_000_000_000 <= dx * rate64 <= 8_000_000_000_000
            && -8_000_000_000_000 <= dy * rate64 <= 8_000_000_000_000)
            by (nonlinear_arith)
            requires
                -2_000_000 <= dx <= 2_000_000,
                -2_000_000 <= dy <= 2_000_000,
                0 < rate64 < 3_000_000,
        ;
    }
    let sx: i64 = round_div(dx * rate64, len64);
    let sy: i64 = round_div(dy * rate64, len64);
    proof {
        lemma_vec_step_shares(dx as int, dy as int, rate64 as int, len64 as int);
        // The axis distances shrink by exactly the shares' magnitudes.
        assert(abs_int(dx - sx) == abs_int(dx as int) - abs_int(sx as int));
        assert(abs_int(dy - sy) == abs_int(dy as int) - abs_int(sy as int));
    }
    (sx as i32, sy as i32)
}

} // verus!
