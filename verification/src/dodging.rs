//! The dodging phase: its countdown, the attack callback decision, and
//! keeping the player inside the bullet board.

use vstd::prelude::*;
use crate::COORD_LIMIT;
use crate::board::{BoardLayout, BulletBoard};
use crate::menu::MenuState;
use crate::menu_transition::MenuTransition;
use crate::physics::PhysicsComponent;

verus! {

/// What the dodging phase asks the scene to do this step.
#[derive(Clone, Copy, PartialEq, Eq, Structural, Debug)]
pub enum DodgingAction {
    /// Run the active attack script.
    RunAttack,
    /// The phase is over: projectiles are to be despawned.
    EndPhase,
    /// Nothing to do.
    Idle,
}

/// Countdown and attack hooks of the dodging phase.
#[derive(Clone, Copy, PartialEq, Eq, Structural, Debug)]
pub struct DodgingPhaseManager {
    /// Frames left of the phase.
    pub time: i32,
    /// An attack script is installed.
    pub has_attack: bool,
    /// A one-shot setup script is installed.
    pub has_init_attack: bool,
}

impl DodgingPhaseManager {
    pub open spec fn wf(self) -> bool {
        -1_000_000 <= self.time <= 1_000_000
    }

    pub fn new() -> (r: DodgingPhaseManager)
        ensures
            r == (DodgingPhaseManager { time: 0, has_attack: false, has_init_attack: false }),
    {
        DodgingPhaseManager { time: 0, has_attack: false, has_init_attack: false }
    }

    /// One frame of the phase: when the countdown runs out, a return to
    /// the selection menu is requested and the board animates back to the
    /// selection layout; until then the installed attack script runs.
    pub fn update_dodging_phase(
        &mut self,
        menu_transition: &mut MenuTransition,
        bullet_board: &mut BulletBoard,
        selection_layout: BoardLayout,
        dt: i32,
    ) -> (action: DodgingAction)
        requires
            old(self).wf(),
            old(bullet_board).wf(),
            selection_layout.wf(),
            0 <= dt <= 1_000_000,
        ensures
            final(self).wf(),
            final(self).has_attack == old(self).has_attack,
            final(self).has_init_attack == old(self).has_init_attack,
            final(self).time == if old(self).time - dt < -1_000_000 {
                -1_000_000int
            } else {
                old(self).time - dt
            },
            final(bullet_board).wf(),
            old(self).time - dt <= 0 ==> {
                &&& action is EndPhase
                &&& final(menu_transition).new_menu == Some(MenuState::Selection)
                &&& final(bullet_board).target_width == selection_layout.width
                &&& final(bullet_board).target_height == selection_layout.height
                &&& final(bullet_board).target_x == selection_layout.x
                &&& final(bullet_board).target_y == selection_layout.y
                &&& final(bullet_board).width == old(bullet_board).width
                &&& final(bullet_board).height == old(bullet_board).height
                &&& final(bullet_board).pos_x == old(bullet_board).pos_x
                &&& final(bullet_board).pos_y == old(bullet_board).pos_y
            },
            old(self).time - dt > 0 ==> {
                &&& *final(bullet_board) == *old(bullet_board)
                &&& final(menu_transition).new_menu == old(menu_transition).new_menu
                &&& action == if old(self).has_attack {
                    DodgingAction::RunAttack
                } else {
                    DodgingAction::Idle
                }
            },
    {
        let next: i32 = self.time - dt;
        self.time = if next < -1_000_000 { -1_000_000 } else { next };
        if next <= 0 {
            menu_transition.new_state(MenuState::Selection);
            bullet_board.transition_board(selection_layout);
            DodgingAction::EndPhase
        } else {
            if self.has_attack {
                DodgingAction::RunAttack
            } else {
                DodgingAction::Idle
            }
        }
    }
}

/// Where the player lands after the board walls push it back: each side is
/// checked in turn, right, left, bottom, top, the later checks winning.
pub open spec fn spec_constrain_axis(p: int, center: int, full: int, sprite: int) -> int {
    let p1 = if p + sprite / 2 > center + full / 2 {
        center + full / 2 - sprite / 2
    } else {
        p
    };
    if p1 - sprite / 2 < center - full / 2 {
        center - full / 2 + sprite / 2
    } else {
        p1
    }
}

/// As `spec_constrain_axis`, but with the lower wall checked first, the
/// order the scene uses on the vertical axis.
pub open spec fn spec_constrain_axis_low_first(p: int, center: int, full: int, sprite: int) -> int {
    let p1 = if p - sprite / 2 < center - full / 2 {
        center - full / 2 + sprite / 2
    } else {
        p
    };
    if p1 + sprite / 2 > center + full / 2 {
        center + full / 2 - sprite / 2
    } else {
        p1
    }
}

/// Clamp the player sprite into the bullet board, exactly as the scene
/// does: the right and left walls for x, then the bottom and top walls for
/// y.  A sprite no wider than the board ends up wholly inside it.
pub fn constrain_player(
    bullet_board: &BulletBoard,
    pos_x: i32,
    pos_y: i32,
    sprite_w: i32,
    sprite_h: i32,
) -> (r: (i32, i32))
    requires
        bullet_board.wf(),
        -2 * COORD_LIMIT <= pos_x <= 2 * COORD_LIMIT,
        -2 * COORD_LIMIT <= pos_y <= 2 * COORD_LIMIT,
        0 <= sprite_w <= COORD_LIMIT,
        0 <= sprite_h <= COORD_LIMIT,
    ensures
        r.0 == spec_constrain_axis(
            pos_x as int, bullet_board.pos_x as int, bullet_board.width as int, sprite_w as int,
        ),
        r.1 == spec_constrain_axis_low_first(
            pos_y as int, bullet_board.pos_y as int, bullet_board.height as int, sprite_h as int,
        ),
        sprite_w <= bullet_board.width ==> {
            &&& bullet_board.pos_x - bullet_board.width / 2 + sprite_w / 2 <= r.0
            &&& r.0 <= bullet_board.pos_x + bullet_board.width / 2 - sprite_w / 2
        },
        sprite_h <= bullet_board.height ==> {
            &&& bullet_board.pos_y - bullet_board.height / 2 + sprite_h / 2 <= r.1
            &&& r.1 <= bullet_board.pos_y + bullet_board.height / 2 - sprite_h / 2
        },
{
    let mut x: i32 = pos_x;
    let mut y: i32 = pos_y;
    if x + sprite_w / 2 > bullet_board.pos_x + bullet_board.width / 2 {
        x = bullet_board.pos_x + bullet_board.width / 2 - sprite_w / 2;
    }
    if x - sprite_w / 2 < bullet_board.pos_x - bullet_board.width / 2 {
        x = bullet_board.pos_x - bullet_board.width / 2 + sprite_w / 2;
    }
    if y - sprite_h / 2 < bullet_board.pos_y - bullet_board.height / 2 {
        y = bullet_board.pos_y - bullet_board.height / 2 + sprite_h / 2;
    }
    if y + sprite_h / 2 > bullet_board.pos_y + bullet_board.height / 2 {
        y = bullet_board.pos_y + bullet_board.height / 2 - sprite_h / 2;
    }
    (x, y)
}

/// One frame of arrow-key movement: each pressed direction contributes one
/// step of `speed` ticks.
pub fn player_movement(
    physics: &mut PhysicsComponent,
    up: bool,
    down: bool,
    right: bool,
    left: bool,
    speed: i32,
)
    requires
        old(physics).wf(),
        0 <= speed <= COORD_LIMIT / 2,
    ensures
        final(physics).pos_x == old(physics).pos_x
            + (if right { speed as int } else { 0 }) - (if left { speed as int } else { 0 }),
        final(physics).pos_y == old(physics).pos_y
            + (if up { speed as int } else { 0 }) - (if down { speed as int } else { 0 }),
        final(physics).velocity_x == old(physics).velocity_x,
        final(physics).velocity_y == old(physics).velocity_y,
        final(physics).half_hitbox_x == old(physics).half_hitbox_x,
        final(physics).half_hitbox_y == old(physics).half_hitbox_y,
        final(physics).half_collision_x == old(physics).half_collision_x,
        final(physics).half_collision_y == old(physics).half_collision_y,
{
    let mut horizontal: i32 = 0;
    let mut vertical: i32 = 0;
    if up {
        vertical = vertical + speed;
    }
    if down {
        vertical = vertical - speed;
    }
    if right {
        horizontal = horizontal + speed;
    }
    if left {
        horizontal = horizontal - speed;
    }
    physics.pos_x = physics.pos_x + horizontal;
    physics.pos_y = physics.pos_y + vertical;
}

} // verus!
