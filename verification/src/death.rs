//! The end of a battle, both ways: the opponent crumbling to dust row by
//! row, and the restart screen after the player falls.

use vstd::prelude::*;
use crate::board::{BoardLayout, BulletBoard};
use crate::dodging::DodgingPhaseManager;
use crate::geom::{dist2, spec_dist2};
use crate::menu::MenuState;
use crate::menu_transition::MenuTransition;
use crate::stats::{PlayerStats, Progress};

verus! {

/// How far, in squared ticks, the soul may sit from the screen center and
/// still accept the restart key.
pub const RESTART_REACH_SQUARED: i64 = 400;

/// Drives the dust animation: sprite rows dissolve one at a time on a
/// clock, and a final timer hands the scene to the restart screen.
#[derive(Clone, Copy, PartialEq, Eq, Structural, Debug)]
pub struct DeathActivator {
    /// Number of sprite rows still to dissolve, in total.
    pub rows: i32,
    /// Frames until the next row goes.
    pub timer: i32,
    /// Next row to dissolve.
    pub i: i32,
    /// Frames until the restart screen.
    pub death_time: i32,
}

impl DeathActivator {
    pub open spec fn wf(self) -> bool {
        &&& 0 <= self.rows <= 1_000_000
        &&& -1_000_000 <= self.timer <= 1_000_000
        &&& 0 <= self.i <= 1_000_000
        &&& -1_000_000 <= self.death_time <= 1_000_000
    }

    /// One frame of the row clock: when it runs out and rows remain, the
    /// next row dissolves and the clock rewinds by the configured gap less
    /// the overshoot.  Returns the row that went, if one did.
    pub fn activate_dust(&mut self, dust_time: i32, dt: i32) -> (row: Option<i32>)
        requires
            old(self).wf(),
            0 <= dust_time <= 1_000_000,
            0 <= dt <= 1_000_000,
        ensures
            final(self).wf(),
            final(self).rows == old(self).rows,
            final(self).death_time == old(self).death_time,
            ({
                let dropped = old(self).timer - dt;
                if dropped <= 0 && old(self).i < old(self).rows {
                    &&& row == Some(old(self).i)
                    &&& final(self).i == old(self).i + 1
                    &&& final(self).timer == if dust_time + dropped < -1_000_000 {
                        -1_000_000int
                    } else {
                        dust_time + dropped
                    }
                } else {
                    &&& row is None
                    &&& final(self).i == old(self).i
                    &&& final(self).timer == if dropped < -1_000_000 {
                        -1_000_000int
                    } else {
                        dropped
                    }
                }
            }),
    {
        let dropped: i32 = self.timer - dt;
        if dropped <= 0 && self.i < self.rows {
            // The gap to the next row is shortened by however late this
            // one was.
            let rewound: i32 = dust_time + dropped;
            self.timer = if rewound < -1_000_000 { -1_000_000 } else { rewound };
            let row: i32 = self.i;
            self.i = self.i + 1;
            Some(row)
        } else {
            self.timer = if dropped < -1_000_000 { -1_000_000 } else { dropped };
            None
        }
    }

    /// One frame of the final clock; when it runs out, the restart screen
    /// is requested.
    pub fn update_death_timer(&mut self, menu_transition: &mut MenuTransition, dt: i32)
        requires
            old(self).wf(),
            0 <= dt <= 1_000_000,
        ensures
            final(self).wf(),
            final(self).rows == old(self).rows,
            final(self).i == old(self).i,
            final(self).timer == old(self).timer,
            final(self).death_time == if old(self).death_time - dt < -1_000_000 {
                -1_000_000int
            } else {
                old(self).death_time - dt
            },
            old(self).death_time - dt <= 0
                ==> final(menu_transition).new_menu == Some(MenuState::Restart),
            old(self).death_time - dt > 0
                ==> final(menu_transition).new_menu == old(menu_transition).new_menu,
    {
        let dropped: i32 = self.death_time - dt;
        self.death_time = if dropped < -1_000_000 { -1_000_000 } else { dropped };
        if dropped <= 0 {
            menu_transition.new_state(MenuState::Restart);
        }
    }
}

/// A lifetime attached to a scene object: the object goes, and its
/// optional one-shot effect fires, when the timer runs out.
#[derive(Clone, Copy, PartialEq, Eq, Structural, Debug)]
pub struct DespawnInTime {
    /// An effect is to run when the lifetime ends.
    pub has_effect: bool,
    /// Full lifetime, in frames.
    pub time: i32,
    /// Frames left.
    pub timer: i32,
}

impl DespawnInTime {
    pub open spec fn wf(self) -> bool {
        &&& 0 <= self.time <= 1_000_000
        &&& -1_000_000 <= self.timer <= 1_000_000
    }

    pub fn new(time: i32, has_effect: bool) -> (r: DespawnInTime)
        requires
            0 <= time <= 1_000_000,
        ensures
            r.wf(),
            r == (DespawnInTime { has_effect, time, timer: time }),
    {
        DespawnInTime { has_effect, time, timer: time }
    }

    /// One frame of the lifetime.  Returns whether the object is now to be
    /// despawned (and its effect, if it has one, run).
    pub fn update_despawn(&mut self, dt: i32) -> (despawn: bool)
        requires
            old(self).wf(),
            0 <= dt <= 1_000_000,
        ensures
            final(self).wf(),
            final(self).has_effect == old(self).has_effect,
            final(self).time == old(self).time,
            final(self).timer == if old(self).timer - dt < -1_000_000 {
                -1_000_000int
            } else {
                old(self).timer - dt
            },
            despawn == (old(self).timer - dt <= 0),
    {
        let dropped: i32 = self.timer - dt;
        self.timer = if dropped < -1_000_000 { -1_000_000 } else { dropped };
        dropped <= 0
    }

    /// The fading sprite's opacity while the lifetime runs down: the share
    /// of the lifetime left, in hundredths, clamped to the unit range.
    pub fn opacity_from_timer(&self) -> (r: i32)
        requires
            self.wf(),
            1 <= self.time,
        ensures
            r == ({
                let raw = (self.timer * 100) as int / self.time as int;
                if raw < 0 {
                    0int
                } else if raw > 100 {
                    100int
                } else {
                    raw
                }
            }),
            0 <= r <= 100,
    {
        if self.timer <= 0 {
            proof {
                assert(self.timer * 100 <= 0 && self.timer * 100 >= -100_000_000)
                    by (nonlinear_arith)
                    requires
                        -1_000_000 <= self.timer <= 0,
                ;
                assert((self.timer * 100) as int / self.time as int <= 0) by (nonlinear_arith)
                    requires
                        self.timer * 100 <= 0,
                        self.time >= 1,
                ;
            }
            0
        } else {
            proof {
                assert(0 <= self.timer * 100 <= 100_000_000) by (nonlinear_arith)
                    requires
                        0 <= self.timer <= 1_000_000,
                ;
                assert((self.timer * 100) as int / self.time as int >= 0) by (nonlinear_arith)
                    requires
                        self.timer * 100 >= 0,
                        self.time >= 1,
                ;
                assert((self.timer * 100) as int / self.time as int <= 100_000_000)
                    by (nonlinear_arith)
                    requires
                        0 <= self.timer * 100 <= 100_000_000,
                        self.time >= 1,
                ;
            }
            let raw64: i64 = self.timer as i64 * 100 / self.time as i64;
            if raw64 > 100 {
                100
            } else {
                raw64 as i32
            }
        }
    }
}

/// One frame of the restart screen.  When the hovering soul has come home
/// to the center and the restart key is pressed, the battle is wound back:
/// the board snaps to the selection layout, a transition to the selection
/// menu is parked, the script restarts, both sides get their health back
/// and the dodge clock is cleared.  Returns whether the reset fired.
pub fn update_restart(
    pressed_z: bool,
    soul_x: i32,
    soul_y: i32,
    bullet_board: &mut BulletBoard,
    menu_transition: &mut MenuTransition,
    progress: &mut Progress,
    player_stats: &mut PlayerStats,
    dodging_manager: &mut DodgingPhaseManager,
    selection_layout: BoardLayout,
    opponent_health: i32,
) -> (reset: bool)
    requires
        old(bullet_board).wf(),
        old(player_stats).wf(),
        selection_layout.wf(),
        -1_000_000 <= soul_x <= 1_000_000,
        -1_000_000 <= soul_y <= 1_000_000,
    ensures
        final(player_stats).wf(),
        final(bullet_board).wf(),
        reset == (pressed_z && spec_dist2(soul_x as int, soul_y as int, 0, 0)
            <= RESTART_REACH_SQUARED),
        reset ==> {
            &&& final(bullet_board).width == selection_layout.width
            &&& final(bullet_board).height == selection_layout.height
            &&& final(bullet_board).pos_x == selection_layout.x
            &&& final(bullet_board).pos_y == selection_layout.y
            &&& final(bullet_board).spec_stable()
            &&& final(menu_transition).new_menu == Some(MenuState::Selection)
            &&& final(progress).turns == 0
            &&& final(progress).health == opponent_health
            &&& final(player_stats).health == old(player_stats).max_health
            &&& final(player_stats).max_health == old(player_stats).max_health
            &&& final(dodging_manager).time == 0
        },
        !reset ==> {
            &&& *final(bullet_board) == *old(bullet_board)
            &&& final(menu_transition).new_menu == old(menu_transition).new_menu
            &&& *final(progress) == *old(progress)
            &&& *final(player_stats) == *old(player_stats)
            &&& *final(dodging_manager) == *old(dodging_manager)
        },
{
    let d2: i64 = dist2(soul_x, soul_y, 0, 0);
    if d2 <= RESTART_REACH_SQUARED && pressed_z {
        bullet_board.absolute_board(selection_layout);
        menu_transition.new_state(MenuState::Selection);
        progress.turns = 0;
        progress.health = opponent_health;
        player_stats.health = player_stats.max_health;
        dodging_manager.time = 0;
        true
    } else {
        false
    }
}

} // verus!
