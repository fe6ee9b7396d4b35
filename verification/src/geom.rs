//! Axis-aligned rectangles and overlap tests.
//!
//! A `Rectangle` is stored the way the battle scene draws it: `x`/`y` is the
//! top-left corner, `y` grows upward, so the bottom edge sits at `y - h`.

use vstd::prelude::*;
use crate::COORD_LIMIT;

verus! {

/// An axis-aligned rectangle; `x`, `y` is the top-left corner and the box
/// extends right by `w` and down by `h` (in tick coordinates, y-up).
#[derive(Clone, Copy, PartialEq, Eq, Structural, Debug)]
pub struct Rectangle {
    pub x: i32,
    pub y: i32,
    pub w: i32,
    pub h: i32,
}

impl Rectangle {
    /// Well-formed: non-negative extent, everything inside the coordinate bound.
    pub open spec fn wf(self) -> bool {
        &&& -COORD_LIMIT <= self.x <= COORD_LIMIT
        &&& -COORD_LIMIT <= self.y <= COORD_LIMIT
        &&& 0 <= self.w <= COORD_LIMIT
        &&& 0 <= self.h <= COORD_LIMIT
    }

    pub open spec fn spec_top(self) -> int {
        self.y as int
    }

    pub open spec fn spec_bottom(self) -> int {
        self.y - self.h
    }

    pub open spec fn spec_left(self) -> int {
        self.x as int
    }

    pub open spec fn spec_right(self) -> int {
        self.x + self.w
    }

    /// A point strictly inside the rectangle (all four edges excluded),
    /// exactly as the scene's cursor test has it.
    pub open spec fn spec_contains_point(self, px: int, py: int) -> bool {
        &&& px < self.spec_right()
        &&& px > self.spec_left()
        &&& py < self.spec_top()
        &&& py > self.spec_bottom()
    }

    /// Overlap including shared edges: the boxes are apart only when one
    /// lies fully to the left of, right of, above or below the other.
    pub open spec fn spec_intersects(self, other: Rectangle) -> bool {
        !(self.spec_right() < other.spec_left()
            || self.spec_left() > other.spec_right()
            || self.spec_bottom() > other.spec_top()
            || self.spec_top() < other.spec_bottom())
    }

    pub fn new(x: i32, y: i32, w: i32, h: i32) -> (r: Rectangle)
        ensures
            r == (Rectangle { x, y, w, h }),
    {
        Rectangle { x, y, w, h }
    }

    /// Build a rectangle from its center and half-extents, as the damage
    /// system does for hitboxes.
    pub fn new_v(pos_x: i32, pos_y: i32, half_w: i32, half_h: i32) -> (r: Rectangle)
        requires
            -COORD_LIMIT <= pos_x <= COORD_LIMIT,
            -COORD_LIMIT <= pos_y <= COORD_LIMIT,
            0 <= half_w <= COORD_LIMIT / 2,
            0 <= half_h <= COORD_LIMIT / 2,
        ensures
            r.x == pos_x - half_w,
            r.y == pos_y + half_h,
            r.w == 2 * half_w,
            r.h == 2 * half_h,
    {
        Rectangle { x: pos_x - half_w, y: pos_y + half_h, w: 2 * half_w, h: 2 * half_h }
    }

    pub fn top(&self) -> (r: i32)
        ensures
            r == self.spec_top(),
    {
        self.y
    }

    pub fn bottom(&self) -> (r: i32)
        requires
            self.wf(),
        ensures
            r == self.spec_bottom(),
    {
        self.y - self.h
    }

    pub fn right(&self) -> (r: i32)
        requires
            self.wf(),
        ensures
            r == self.spec_right(),
    {
        self.x + self.w
    }

    pub fn left(&self) -> (r: i32)
        ensures
            r == self.spec_left(),
    {
        self.x
    }

    pub fn middle_x(&self) -> (r: i32)
        requires
            self.wf(),
        ensures
            r == self.x + self.w / 2,
    {
        self.x + self.w / 2
    }

    pub fn middle_y(&self) -> (r: i32)
        requires
            self.wf(),
        ensures
            r == self.y - self.h / 2,
    {
        self.y - self.h / 2
    }

    pub fn contains_point(&self, px: i32, py: i32) -> (r: bool)
        requires
            self.wf(),
        ensures
            r == self.spec_contains_point(px as int, py as int),
    {
        px < self.right() && px > self.left() && py < self.top() && py > self.bottom()
    }

    /// Whether `rectangle` lies strictly inside `self`: both its top-right
    /// and bottom-left corners are interior points.
    pub fn contains_rect(&self, rectangle: Rectangle) -> (r: bool)
        requires
            self.wf(),
            rectangle.wf(),
        ensures
            r == (self.spec_contains_point(rectangle.spec_right(), rectangle.spec_top())
                && self.spec_contains_point(rectangle.spec_left(), rectangle.spec_bottom())),
    {
        self.contains_point(rectangle.right(), rectangle.top())
            && self.contains_point(rectangle.left(), rectangle.bottom())
    }

    pub fn intersects(&self, other: Rectangle) -> (r: bool)
        requires
            self.wf(),
            other.wf(),
        ensures
            r == self.spec_intersects(other),
    {
        !(self.right() < other.left()
            || self.left() > other.right()
            || self.bottom() > other.top()
            || self.top() < other.bottom())
    }
}

/// Overlap is symmetric: whichever of the two boxes asks, the answer is the
/// same.
pub proof fn lemma_intersects_symmetric(a: Rectangle, b: Rectangle)
    ensures
        a.spec_intersects(b) == b.spec_intersects(a),
{
}

/// Overlap test for boxes given by center and full size, as the survival
/// scene uses it: strict inequality on the center distance against the sum
/// of the half-extents.
pub open spec fn spec_aabb_collision(
    pos1_x: int, pos1_y: int, size1_x: int, size1_y: int,
    pos2_x: int, pos2_y: int, size2_x: int, size2_y: int,
) -> bool {
    &&& abs_int(pos1_x - pos2_x) < size1_x / 2 + size2_x / 2
    &&& abs_int(pos1_y - pos2_y) < size1_y / 2 + size2_y / 2
}

pub open spec fn abs_int(x: int) -> int {
    if x >= 0 { x } else { -x }
}

/// How deep two rectangles overlap on each axis, measured between their
/// centers: zero when they are apart or merely touching, and otherwise the
/// signed push that would separate them, pointing from the second body to
/// the first.
pub open spec fn spec_intersection_depth(a: Rectangle, b: Rectangle) -> (int, int) {
    let half_width_a = a.w / 2;
    let half_height_a = a.h / 2;
    let half_width_b = b.w / 2;
    let half_height_b = b.h / 2;
    let distance_x = (a.x + half_width_a) - (b.x + half_width_b);
    let distance_y = (a.y - half_height_a) - (b.y - half_height_b);
    let min_distance_x = half_width_a + half_width_b;
    let min_distance_y = half_height_a + half_height_b;
    if abs_int(distance_x) >= min_distance_x || abs_int(distance_y) >= min_distance_y {
        (0int, 0int)
    } else {
        let depth_x = if distance_x > 0 {
            min_distance_x - distance_x
        } else {
            -min_distance_x - distance_x
        };
        let depth_y = if distance_y > 0 {
            min_distance_y - distance_y
        } else {
            -min_distance_y - distance_y
        };
        (depth_x, depth_y)
    }
}

impl Rectangle {
    pub fn get_intersection_depth(rect_a: Rectangle, rect_b: Rectangle) -> (r: (i32, i32))
        requires
            rect_a.wf(),
            rect_b.wf(),
        ensures
            r.0 == spec_intersection_depth(rect_a, rect_b).0,
            r.1 == spec_intersection_depth(rect_a, rect_b).1,
    {
        let half_width_a: i32 = rect_a.w / 2;
        let half_height_a: i32 = rect_a.h / 2;
        let half_width_b: i32 = rect_b.w / 2;
        let half_height_b: i32 = rect_b.h / 2;
        let center_a_x: i32 = rect_a.x + half_width_a;
        let center_a_y: i32 = rect_a.y - half_height_a;
        let center_b_x: i32 = rect_b.x + half_width_b;
        let center_b_y: i32 = rect_b.y - half_height_b;
        let distance_x: i32 = center_a_x - center_b_x;
        let distance_y: i32 = center_a_y - center_b_y;
        let min_distance_x: i32 = half_width_a + half_width_b;
        let min_distance_y: i32 = half_height_a + half_height_b;
        let abs_x: i32 = if distance_x >= 0 { distance_x } else { -distance_x };
        let abs_y: i32 = if distance_y >= 0 { distance_y } else { -distance_y };
        if abs_x >= min_distance_x || abs_y >= min_distance_y {
            return (0, 0);
        }
        let depth_x: i32 = if distance_x > 0 {
            min_distance_x - distance_x
        } else {
            -min_distance_x - distance_x
        };
        let depth_y: i32 = if distance_y > 0 {
            min_distance_y - distance_y
        } else {
            -min_distance_y - distance_y
        };
        (depth_x, depth_y)
    }
}

/// Whether two circles overlap: their centers are strictly closer than the
/// sum of the radii.
pub fn circles_collide(ax: i32, ay: i32, bx: i32, by: i32, r1: i32, r2: i32) -> (r: bool)
    requires
        -COORD_LIMIT <= ax <= COORD_LIMIT,
        -COORD_LIMIT <= ay <= COORD_LIMIT,
        -COORD_LIMIT <= bx <= COORD_LIMIT,
        -COORD_LIMIT <= by <= COORD_LIMIT,
        0 <= r1 <= COORD_LIMIT,
        0 <= r2 <= COORD_LIMIT,
    ensures
        r == (spec_dist2(ax as int, ay as int, bx as int, by as int)
            < (r1 + r2) * (r1 + r2)),
{
    let d2: i64 = dist2(ax, ay, bx, by);
    let reach: i64 = r1 as i64 + r2 as i64;
    proof {
        assert(0 <= reach * reach <= 4_000_000_000_000) by (nonlinear_arith)
            requires
                0 <= reach <= 2_000_000,
        ;
    }
    d2 < reach * reach
}

/// Squared Euclidean distance between two points.
pub open spec fn spec_dist2(ax: int, ay: int, bx: int, by: int) -> int {
    (ax - bx) * (ax - bx) + (ay - by) * (ay - by)
}

pub fn dist2(ax: i32, ay: i32, bx: i32, by: i32) -> (r: i64)
    requires
        -COORD_LIMIT <= ax <= COORD_LIMIT,
        -COORD_LIMIT <= ay <= COORD_LIMIT,
        -COORD_LIMIT <= bx <= COORD_LIMIT,
        -COORD_LIMIT <= by <= COORD_LIMIT,
    ensures
        r == spec_dist2(ax as int, ay as int, bx as int, by as int),
        0 <= r <= 8_000_000_000_000,
{
    let dx: i64 = ax as i64 - bx as i64;
    let dy: i64 = ay as i64 - by as i64;
    proof {
        assert(dx * dx + dy * dy <= 8_000_000_000_000 && dx * dx >= 0 && dy * dy >= 0)
            by (nonlinear_arith)
            requires
                -2_000_000 <= dx <= 2_000_000,
                -2_000_000 <= dy <= 2_000_000,
        ;
    }
    dx * dx + dy * dy
}

pub fn aabb_collision(
    pos1_x: i32, pos1_y: i32, size1_x: i32, size1_y: i32,
    pos2_x: i32, pos2_y: i32, size2_x: i32, size2_y: i32,
) -> (r: bool)
    requires
        -COORD_LIMIT <= pos1_x <= COORD_LIMIT,
        -COORD_LIMIT <= pos1_y <= COORD_LIMIT,
        -COORD_LIMIT <= pos2_x <= COORD_LIMIT,
        -COORD_LIMIT <= pos2_y <= COORD_LIMIT,
        0 <= size1_x <= COORD_LIMIT,
        0 <= size1_y <= COORD_LIMIT,
        0 <= size2_x <= COORD_LIMIT,
        0 <= size2_y <= COORD_LIMIT,
    ensures
        r == spec_aabb_collision(
            pos1_x as int, pos1_y as int, size1_x as int, size1_y as int,
            pos2_x as int, pos2_y as int, size2_x as int, size2_y as int,
        ),
{
    let half1_x: i32 = size1_x / 2;
    let half1_y: i32 = size1_y / 2;
    let half2_x: i32 = size2_x / 2;
    let half2_y: i32 = size2_y / 2;
    let dx: i32 = if pos1_x >= pos2_x { pos1_x - pos2_x } else { pos2_x - pos1_x };
    let dy: i32 = if pos1_y >= pos2_y { pos1_y - pos2_y } else { pos2_y - pos1_y };
    dx < half1_x + half2_x && dy < half1_y + half2_y
}

} // verus!
