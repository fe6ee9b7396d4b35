//! The bullet board: the rectangular dodge arena whose size and position
//! animate between layout presets.
//!
//! Width, height and the center animate independently toward their targets,
//! the size at `expansion_rate` ticks per step and the center at
//! `movement_rate` ticks per step.  The board is "stable" when its size,
//! rounded to whole units, matches the target and the center sits within one
//! tick of where it is headed; pending menu transitions wait for stability.

use vstd::prelude::*;
use crate::{COORD_LIMIT, UNIT};
use crate::geom::{dist2, spec_dist2};
use crate::interp::{
    move_towards, move_towards_vec, spec_move_towards, lemma_move_towards_converges,
};

verus! {

/// A layout preset the board can animate to: center position and size.
#[derive(Clone, Copy, PartialEq, Eq, Structural, Debug)]
pub struct BoardLayout {
    pub x: i32,
    pub y: i32,
    pub width: i32,
    pub height: i32,
}

impl BoardLayout {
    pub open spec fn wf(self) -> bool {
        &&& -COORD_LIMIT <= self.x <= COORD_LIMIT
        &&& -COORD_LIMIT <= self.y <= COORD_LIMIT
        &&& 0 <= self.width <= COORD_LIMIT
        &&& 0 <= self.height <= COORD_LIMIT
    }
}

/// The animated dodge arena.  `pos_x`/`pos_y` is the center.
#[derive(Clone, Copy, PartialEq, Eq, Structural, Debug)]
pub struct BulletBoard {
    pub width: i32,
    pub height: i32,
    pub pos_x: i32,
    pub pos_y: i32,
    pub target_width: i32,
    pub target_height: i32,
    pub target_x: i32,
    pub target_y: i32,
    pub border: i32,
    pub expansion_rate: i32,
    pub movement_rate: i32,
}

/// A board size in ticks, rounded to the nearest whole unit.
pub open spec fn round_unit(v: int) -> int
    recommends
        v >= 0,
{
    (v + UNIT / 2) / (UNIT as int)
}

impl BulletBoard {
    /// Sizes never go negative and everything stays inside the coordinate
    /// bound.
    pub open spec fn wf(self) -> bool {
        &&& 0 <= self.width <= COORD_LIMIT
        &&& 0 <= self.height <= COORD_LIMIT
        &&& 0 <= self.target_width <= COORD_LIMIT
        &&& 0 <= self.target_height <= COORD_LIMIT
        &&& -COORD_LIMIT <= self.pos_x <= COORD_LIMIT
        &&& -COORD_LIMIT <= self.pos_y <= COORD_LIMIT
        &&& -COORD_LIMIT <= self.target_x <= COORD_LIMIT
        &&& -COORD_LIMIT <= self.target_y <= COORD_LIMIT
        &&& 0 <= self.border <= COORD_LIMIT
        &&& 0 <= self.expansion_rate <= COORD_LIMIT
        &&& 0 <= self.movement_rate <= COORD_LIMIT
    }

    /// Stable: each size agrees with its target once rounded to whole
    /// units, and the center is within one tick of its target.
    pub open spec fn spec_stable(self) -> bool {
        &&& round_unit(self.width as int) == round_unit(self.target_width as int)
        &&& round_unit(self.height as int) == round_unit(self.target_height as int)
        &&& spec_dist2(
            self.pos_x as int, self.pos_y as int, self.target_x as int, self.target_y as int,
        ) <= 1
    }

    pub fn stable(&self) -> (r: bool)
        requires
            self.wf(),
        ensures
            r == self.spec_stable(),
    {
        let rw: i32 = (self.width + UNIT / 2) / UNIT;
        let rtw: i32 = (self.target_width + UNIT / 2) / UNIT;
        let rh: i32 = (self.height + UNIT / 2) / UNIT;
        let rth: i32 = (self.target_height + UNIT / 2) / UNIT;
        let d2: i64 = dist2(self.pos_x, self.pos_y, self.target_x, self.target_y);
        rw == rtw && rh == rth && d2 <= 1
    }

    /// Point both targets and the current values at the given geometry; the
    /// board is stable immediately afterwards.
    pub fn set_absolute(&mut self, width: i32, height: i32, pos_x: i32, pos_y: i32)
        requires
            old(self).wf(),
            0 <= width <= COORD_LIMIT,
            0 <= height <= COORD_LIMIT,
            -COORD_LIMIT <= pos_x <= COORD_LIMIT,
            -COORD_LIMIT <= pos_y <= COORD_LIMIT,
        ensures
            final(self).wf(),
            final(self).width == width && final(self).target_width == width,
            final(self).height == height && final(self).target_height == height,
            final(self).pos_x == pos_x && final(self).target_x == pos_x,
            final(self).pos_y == pos_y && final(self).target_y == pos_y,
            final(self).border == old(self).border,
            final(self).expansion_rate == old(self).expansion_rate,
            final(self).movement_rate == old(self).movement_rate,
            final(self).spec_stable(),
    {
        self.width = width;
        self.height = height;
        self.pos_x = pos_x;
        self.pos_y = pos_y;
        self.target_width = width;
        self.target_height = height;
        self.target_x = pos_x;
        self.target_y = pos_y;
    }

    /// Ask the board to animate toward a layout: only the targets move.
    pub fn transition_board(&mut self, board: BoardLayout)
        requires
            old(self).wf(),
            board.wf(),
        ensures
            final(self).wf(),
            final(self).target_width == board.width,
            final(self).target_height == board.height,
            final(self).target_x == board.x,
            final(self).target_y == board.y,
            final(self).width == old(self).width,
            final(self).height == old(self).height,
            final(self).pos_x == old(self).pos_x,
            final(self).pos_y == old(self).pos_y,
            final(self).border == old(self).border,
            final(self).expansion_rate == old(self).expansion_rate,
            final(self).movement_rate == old(self).movement_rate,
    {
        self.target_width = board.width;
        self.target_height = board.height;
        self.target_x = board.x;
        self.target_y = board.y;
    }

    /// Jump to a layout at once, targets included.
    pub fn absolute_board(&mut self, board: BoardLayout)
        requires
            old(self).wf(),
            board.wf(),
        ensures
            final(self).wf(),
            final(self).width == board.width && final(self).target_width == board.width,
            final(self).height == board.height && final(self).target_height == board.height,
            final(self).pos_x == board.x && final(self).target_x == board.x,
            final(self).pos_y == board.y && final(self).target_y == board.y,
            final(self).border == old(self).border,
            final(self).expansion_rate == old(self).expansion_rate,
            final(self).movement_rate == old(self).movement_rate,
            final(self).spec_stable(),
    {
        self.set_absolute(board.width, board.height, board.x, board.y);
    }

    /// One animation step: each size moves by at most `expansion_rate`
    /// toward its target and the center by at most `movement_rate`, never
    /// landing past them.
    pub fn step(&mut self)
        requires
            old(self).wf(),
        ensures
            final(self).wf(),
            final(self).width == old(self).width + spec_move_towards(
                old(self).width as int, old(self).target_width as int,
                old(self).expansion_rate as int,
            ),
            final(self).height == old(self).height + spec_move_towards(
                old(self).height as int, old(self).target_height as int,
                old(self).expansion_rate as int,
            ),
            old(self).pos_x <= old(self).target_x
                ==> old(self).pos_x <= final(self).pos_x <= old(self).target_x,
            old(self).target_x <= old(self).pos_x
                ==> old(self).target_x <= final(self).pos_x <= old(self).pos_x,
            old(self).pos_y <= old(self).target_y
                ==> old(self).pos_y <= final(self).pos_y <= old(self).target_y,
            old(self).target_y <= old(self).pos_y
                ==> old(self).target_y <= final(self).pos_y <= old(self).pos_y,
            spec_dist2(
                old(self).pos_x as int, old(self).pos_y as int,
                old(self).target_x as int, old(self).target_y as int,
            ) <= old(self).movement_rate * old(self).movement_rate
                ==> final(self).pos_x == old(self).target_x
                    && final(self).pos_y == old(self).target_y,
            // The center never moves more than the movement rate per axis,
            // and while it is still out of reach it closes the Manhattan
            // distance to its target by at least the rate.
            -old(self).movement_rate <= final(self).pos_x - old(self).pos_x
                <= old(self).movement_rate,
            -old(self).movement_rate <= final(self).pos_y - old(self).pos_y
                <= old(self).movement_rate,
            old(self).movement_rate >= 1 && spec_dist2(
                old(self).pos_x as int, old(self).pos_y as int,
                old(self).target_x as int, old(self).target_y as int,
            ) > old(self).movement_rate * old(self).movement_rate
                ==> crate::geom::abs_int(old(self).target_x - final(self).pos_x)
                    + crate::geom::abs_int(old(self).target_y - final(self).pos_y)
                    <= crate::geom::abs_int(old(self).target_x - old(self).pos_x)
                        + crate::geom::abs_int(old(self).target_y - old(self).pos_y)
                        - old(self).movement_rate,
            final(self).target_width == old(self).target_width,
            final(self).target_height == old(self).target_height,
            final(self).target_x == old(self).target_x,
            final(self).target_y == old(self).target_y,
            final(self).border == old(self).border,
            final(self).expansion_rate == old(self).expansion_rate,
            final(self).movement_rate == old(self).movement_rate,
    {
        proof {
            lemma_move_towards_converges(
                self.width as int, self.target_width as int, self.expansion_rate as int,
            );
            lemma_move_towards_converges(
                self.height as int, self.target_height as int, self.expansion_rate as int,
            );
        }
        let dw: i32 = move_towards(self.width, self.target_width, self.expansion_rate);
        self.width = self.width + dw;
        let dh: i32 = move_towards(self.height, self.target_height, self.expansion_rate);
        self.height = self.height + dh;
        proof {
            let px = self.pos_x as int;
            let py = self.pos_y as int;
            let tx = self.target_x as int;
            let ty = self.target_y as int;
            assert((tx - px) * (tx - px) == (px - tx) * (px - tx)) by (nonlinear_arith);
            assert((ty - py) * (ty - py) == (py - ty) * (py - ty)) by (nonlinear_arith);
        }
        let (dx, dy): (i32, i32) = move_towards_vec(
            self.pos_x, self.pos_y, self.target_x, self.target_y, self.movement_rate,
        );
        self.pos_x = self.pos_x + dx;
        self.pos_y = self.pos_y + dy;
    }
}

/// Stability is reflexive: any board whose sizes and center sit exactly on
/// their targets — as `set_absolute` leaves them — is stable.
pub proof fn lemma_stable_reflexive(b: BulletBoard)
    requires
        b.width == b.target_width,
        b.height == b.target_height,
        b.pos_x == b.target_x,
        b.pos_y == b.target_y,
    ensures
        b.spec_stable(),
{
    assert((b.pos_x - b.target_x) * (b.pos_x - b.target_x) == 0) by (nonlinear_arith)
        requires
            b.pos_x == b.target_x,
    ;
    assert((b.pos_y - b.target_y) * (b.pos_y - b.target_y) == 0) by (nonlinear_arith)
        requires
            b.pos_y == b.target_y,
    ;
}

/// Full span, in ticks, of the opaque fills that mask the scene outside the
/// board.
pub const SIDE_FILL_SPAN: i32 = 10_000;

/// One of the four border bars drawn around the board.
#[derive(Clone, Copy, PartialEq, Eq, Structural, Debug)]
pub enum BulletBoardBorder {
    Right,
    Left,
    Top,
    Bottom,
}

/// One of the four masking fills outside the board.
#[derive(Clone, Copy, PartialEq, Eq, Structural, Debug)]
pub enum SideFill {
    Right,
    Left,
    Top,
    Bottom,
}

impl BulletBoard {
    /// Center of the top border bar.
    pub fn get_top(&self) -> (r: (i32, i32))
        requires
            self.wf(),
        ensures
            r.0 == self.pos_x,
            r.1 == self.pos_y + self.height / 2 + self.border / 2,
    {
        (self.pos_x, self.pos_y + self.height / 2 + self.border / 2)
    }

    /// Center of the bottom border bar.
    pub fn get_bottom(&self) -> (r: (i32, i32))
        requires
            self.wf(),
        ensures
            r.0 == self.pos_x,
            r.1 == self.pos_y - self.height / 2 - self.border / 2,
    {
        (self.pos_x, self.pos_y - self.height / 2 - self.border / 2)
    }

    /// Center of the left border bar.
    pub fn get_left(&self) -> (r: (i32, i32))
        requires
            self.wf(),
        ensures
            r.0 == self.pos_x - self.width / 2 - self.border / 2,
            r.1 == self.pos_y,
    {
        (self.pos_x - self.width / 2 - self.border / 2, self.pos_y)
    }

    /// Center of the right border bar.
    pub fn get_right(&self) -> (r: (i32, i32))
        requires
            self.wf(),
        ensures
            r.0 == self.pos_x + self.width / 2 + self.border / 2,
            r.1 == self.pos_y,
    {
        (self.pos_x + self.width / 2 + self.border / 2, self.pos_y)
    }

    /// The center displaced along a unit axis direction by `amount`.
    pub fn get_offset(&self, dir_x: i32, dir_y: i32, amount: i32) -> (r: (i32, i32))
        requires
            self.wf(),
            -1 <= dir_x <= 1,
            -1 <= dir_y <= 1,
            0 <= amount <= 2 * COORD_LIMIT,
        ensures
            dir_x == 1 ==> r.0 == self.pos_x + amount,
            dir_x == 0 ==> r.0 == self.pos_x,
            dir_x == -1 ==> r.0 == self.pos_x - amount,
            dir_y == 1 ==> r.1 == self.pos_y + amount,
            dir_y == 0 ==> r.1 == self.pos_y,
            dir_y == -1 ==> r.1 == self.pos_y - amount,
    {
        let off_x: i32 = if dir_x > 0 { amount } else if dir_x < 0 { -amount } else { 0 };
        let off_y: i32 = if dir_y > 0 { amount } else if dir_y < 0 { -amount } else { 0 };
        (self.pos_x + off_x, self.pos_y + off_y)
    }

    /// Center of one of the four masking fills, pushed out half a board plus
    /// half the fill span.
    pub fn get_side_fill(&self, side_fill: SideFill) -> (r: (i32, i32))
        requires
            self.wf(),
        ensures
            side_fill is Right ==> r.0 == self.pos_x + self.width / 2 + SIDE_FILL_SPAN / 2
                && r.1 == self.pos_y,
            side_fill is Left ==> r.0 == self.pos_x - self.width / 2 - SIDE_FILL_SPAN / 2
                && r.1 == self.pos_y,
            side_fill is Top ==> r.0 == self.pos_x
                && r.1 == self.pos_y + self.height / 2 + SIDE_FILL_SPAN / 2,
            side_fill is Bottom ==> r.0 == self.pos_x
                && r.1 == self.pos_y - self.height / 2 - SIDE_FILL_SPAN / 2,
    {
        match side_fill {
            SideFill::Right => self.get_offset(1, 0, self.width / 2 + SIDE_FILL_SPAN / 2),
            SideFill::Left => self.get_offset(-1, 0, self.width / 2 + SIDE_FILL_SPAN / 2),
            SideFill::Top => self.get_offset(0, 1, self.height / 2 + SIDE_FILL_SPAN / 2),
            SideFill::Bottom => self.get_offset(0, -1, self.height / 2 + SIDE_FILL_SPAN / 2),
        }
    }

    /// Size of the horizontal (top or bottom) border bars.
    pub fn get_vert_size(&self) -> (r: (i32, i32))
        requires
            self.wf(),
        ensures
            r.0 == self.width + self.border * 2,
            r.1 == self.border,
    {
        (self.width + self.border * 2, self.border)
    }

    /// Size of the vertical (left or right) border bars.
    pub fn get_hor_size(&self) -> (r: (i32, i32))
        requires
            self.wf(),
        ensures
            r.0 == self.border,
            r.1 == self.height + self.border * 2,
    {
        (self.border, self.height + self.border * 2)
    }

    pub fn get_border_position(&self, border: BulletBoardBorder) -> (r: (i32, i32))
        requires
            self.wf(),
        ensures
            border is Right ==> r.0 == self.pos_x + self.width / 2 + self.border / 2
                && r.1 == self.pos_y,
            border is Left ==> r.0 == self.pos_x - self.width / 2 - self.border / 2
                && r.1 == self.pos_y,
            border is Top ==> r.0 == self.pos_x
                && r.1 == self.pos_y + self.height / 2 + self.border / 2,
            border is Bottom ==> r.0 == self.pos_x
                && r.1 == self.pos_y - self.height / 2 - self.border / 2,
    {
        match border {
            BulletBoardBorder::Right => self.get_right(),
            BulletBoardBorder::Left => self.get_left(),
            BulletBoardBorder::Top => self.get_top(),
            BulletBoardBorder::Bottom => self.get_bottom(),
        }
    }

    pub fn get_border_scale(&self, border: BulletBoardBorder) -> (r: (i32, i32))
        requires
            self.wf(),
        ensures
            border is Right || border is Left
                ==> r.0 == self.border && r.1 == self.height + self.border * 2,
            border is Top || border is Bottom
                ==> r.0 == self.width + self.border * 2 && r.1 == self.border,
    {
        match border {
            BulletBoardBorder::Right => self.get_hor_size(),
            BulletBoardBorder::Left => self.get_hor_size(),
            BulletBoardBorder::Top => self.get_vert_size(),
            BulletBoardBorder::Bottom => self.get_vert_size(),
        }
    }
}

} // verus!
