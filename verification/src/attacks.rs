//! The scripted enemy attacks: a four-sided bullet wave and a double row
//! of shovels, all laid out relative to the bullet board.

use vstd::prelude::*;
use crate::board::{BoardLayout, BulletBoard};
use crate::dodging::DodgingPhaseManager;

verus! {

/// Gap between two bullets of a wave, in ticks.
pub const WAVE_SPACING: i32 = 160;

/// Bullet speed, in ticks per frame.
pub const WAVE_BULLET_SPEED: i32 = 30;

/// Frames a dodging phase lasts.
pub const DODGE_PHASE_FRAMES: i32 = 300;

/// Horizontal gap between two shovels, in ticks.
pub const SHOVEL_SPACING: i32 = 100;

/// Half-width of a shovel sprite, in ticks.
pub const SHOVEL_HALF_WIDTH: i32 = 50;

/// Half-height of a shovel's hitbox, in ticks.
pub const SHOVEL_HALF_HEIGHT: i32 = 200;

/// The rotating four-sided bullet wave.
#[derive(Clone, Copy, PartialEq, Eq, Structural, Debug)]
pub struct Attack1 {
    /// Frames until the next wave.
    pub attack_timer: i32,
    /// Frames between two waves.
    pub attack_time: i32,
    /// Side the next wave comes from: left, top, right, bottom in turn.
    pub attack_dir: i32,
}

/// The shovel attack's clock.
#[derive(Clone, Copy, PartialEq, Eq, Structural, Debug)]
pub struct ShovelAttack {
    pub timer: i32,
}

/// One spawned projectile: position and velocity, in ticks.
#[derive(Clone, Copy, PartialEq, Eq, Structural, Debug)]
pub struct Spawn {
    pub pos_x: i32,
    pub pos_y: i32,
    pub vel_x: i32,
    pub vel_y: i32,
}

/// How many bullets a wave tries to line up along a side of length
/// `line_up`; the bullet at slot one is left out as the gap to dodge
/// through.
pub open spec fn spec_wave_count(line_up: int) -> int {
    line_up / (WAVE_SPACING as int) - 1
}

/// Length of the side a wave from direction `dir` travels along, and of
/// the side it lines up along.
pub open spec fn spec_wave_sides(board: BulletBoard, dir: int) -> (int, int) {
    if dir == 1 || dir == 3 {
        (board.height as int, board.width as int)
    } else {
        (board.width as int, board.height as int)
    }
}

/// The bullet at slot `i` of a wave from direction `dir`: bullets line up
/// just outside the board's far side and fly back across it.
pub open spec fn spec_wave_bullet(board: BulletBoard, dir: int, i: int) -> Spawn {
    let (distance, line_up) = spec_wave_sides(board, dir);
    let along = line_up / 2 - WAVE_SPACING + (-WAVE_SPACING) * i;
    if dir == 0 {
        Spawn {
            pos_x: (board.pos_x - distance / 2) as i32,
            pos_y: (board.pos_y + (-1) * along) as i32,
            vel_x: WAVE_BULLET_SPEED,
            vel_y: 0,
        }
    } else if dir == 1 {
        Spawn {
            pos_x: (board.pos_x + along) as i32,
            pos_y: (board.pos_y + distance / 2) as i32,
            vel_x: 0,
            vel_y: (-(WAVE_BULLET_SPEED as int)) as i32,
        }
    } else if dir == 2 {
        Spawn {
            pos_x: (board.pos_x + distance / 2) as i32,
            pos_y: (board.pos_y + along) as i32,
            vel_x: (-(WAVE_BULLET_SPEED as int)) as i32,
            vel_y: 0,
        }
    } else {
        Spawn {
            pos_x: (board.pos_x + (-1) * along) as i32,
            pos_y: (board.pos_y - distance / 2) as i32,
            vel_x: 0,
            vel_y: WAVE_BULLET_SPEED,
        }
    }
}

impl Attack1 {
    /// Begin the wave attack: the board animates to the battle layout,
    /// the dodge countdown starts, and waves come one per second from the
    /// left first.
    pub fn enter_attack_1(
        &mut self,
        bullet_board: &mut BulletBoard,
        battle_layout: BoardLayout,
        dodge_manager: &mut DodgingPhaseManager,
        wave_frames: i32,
    )
        requires
            old(bullet_board).wf(),
            battle_layout.wf(),
            0 <= wave_frames <= 1_000_000,
        ensures
            final(bullet_board).wf(),
            final(bullet_board).target_width == battle_layout.width,
            final(bullet_board).target_height == battle_layout.height,
            final(bullet_board).target_x == battle_layout.x,
            final(bullet_board).target_y == battle_layout.y,
            final(dodge_manager).time == DODGE_PHASE_FRAMES,
            final(dodge_manager).has_attack == old(dodge_manager).has_attack,
            final(dodge_manager).has_init_attack == old(dodge_manager).has_init_attack,
            final(self).attack_time == wave_frames,
            final(self).attack_timer == wave_frames,
            final(self).attack_dir == 0,
    {
        bullet_board.transition_board(battle_layout);
        dodge_manager.time = DODGE_PHASE_FRAMES;
        self.attack_time = wave_frames;
        self.attack_timer = wave_frames;
        self.attack_dir = 0;
    }

    /// One frame of the wave attack.  When the wave clock runs out, a
    /// wave of bullets is spawned along the current side — slot one left
    /// open — and the side advances; otherwise nothing is spawned.
    pub fn attack_1(&mut self, bullet_board: &BulletBoard, dt: i32) -> (spawns: Vec<Spawn>)
        requires
            bullet_board.wf(),
            -1_000_000 <= old(self).attack_timer <= 1_000_000,
            0 <= old(self).attack_time <= 1_000_000,
            0 <= old(self).attack_dir <= 3,
            0 <= dt <= 1_000_000,
        ensures
            final(self).attack_time == old(self).attack_time,
            old(self).attack_timer - dt > 0 ==> {
                &&& final(self).attack_timer == old(self).attack_timer - dt
                &&& final(self).attack_dir == old(self).attack_dir
                &&& spawns@.len() == 0
            },
            old(self).attack_timer - dt <= 0 ==> {
                let count = spec_wave_count(
                    spec_wave_sides(*bullet_board, old(self).attack_dir as int).1,
                );
                &&& final(self).attack_timer == old(self).attack_time
                &&& final(self).attack_dir == (old(self).attack_dir + 1) % 4
                &&& spawns@.len() == if count >= 2 {
                    count - 1
                } else if count >= 0 {
                    count
                } else {
                    0
                }
                &&& forall|j: int|
                    0 <= j < spawns@.len() ==> #[trigger] spawns@[j] == spec_wave_bullet(
                        *bullet_board,
                        old(self).attack_dir as int,
                        if j == 0 { 0int } else { j + 1 },
                    )
            },
    {
        let next: i32 = self.attack_timer - dt;
        if next > 0 {
            self.attack_timer = next;
            return Vec::new();
        }
        self.attack_timer = self.attack_time;
        let dir: i32 = self.attack_dir;
        let (distance, line_up): (i32, i32) = if dir == 1 || dir == 3 {
            (bullet_board.height, bullet_board.width)
        } else {
            (bullet_board.width, bullet_board.height)
        };
        let count: i32 = line_up / WAVE_SPACING - 1;
        let mut spawns: Vec<Spawn> = Vec::new();
        let mut i: i32 = 0;
        while i < count
            invariant
                bullet_board.wf(),
                0 <= dir <= 3,
                distance == spec_wave_sides(*bullet_board, dir as int).0,
                line_up == spec_wave_sides(*bullet_board, dir as int).1,
                count == spec_wave_count(line_up as int),
                count <= 1_000_000,
                0 <= i <= if count > 0 { count as int } else { 0 },
                spawns@.len() == if i >= 2 { i - 1 } else { i as int },
                forall|j: int|
                    0 <= j < spawns@.len() ==> #[trigger] spawns@[j] == spec_wave_bullet(
                        *bullet_board, dir as int, if j == 0 { 0int } else { j + 1 },
                    ),
            decreases count - i,
        {
            if i != 1 {
                let along: i32 = line_up / 2 - WAVE_SPACING - WAVE_SPACING * i;
                let spawn: Spawn = if dir == 0 {
                    Spawn {
                        pos_x: bullet_board.pos_x - distance / 2,
                        pos_y: bullet_board.pos_y - along,
                        vel_x: WAVE_BULLET_SPEED,
                        vel_y: 0,
                    }
                } else if dir == 1 {
                    Spawn {
                        pos_x: bullet_board.pos_x + along,
                        pos_y: bullet_board.pos_y + distance / 2,
                        vel_x: 0,
                        vel_y: -WAVE_BULLET_SPEED,
                    }
                } else if dir == 2 {
                    Spawn {
                        pos_x: bullet_board.pos_x + distance / 2,
                        pos_y: bullet_board.pos_y + along,
                        vel_x: -WAVE_BULLET_SPEED,
                        vel_y: 0,
                    }
                } else {
                    Spawn {
                        pos_x: bullet_board.pos_x - along,
                        pos_y: bullet_board.pos_y - distance / 2,
                        vel_x: 0,
                        vel_y: WAVE_BULLET_SPEED,
                    }
                };
                spawns.push(spawn);
            }
            i = i + 1;
        }
        self.attack_dir = if dir == 3 { 0 } else { dir + 1 };
        proof {
            if dir == 3 {
                vstd::arithmetic::div_mod::lemma_mod_self_0(4int);
            } else {
                vstd::arithmetic::div_mod::lemma_small_mod((dir + 1) as nat, 4nat);
            }
        }
        spawns
    }
}

/// The two rows of shovels guarding the tunnel layout: a column every
/// `SHOVEL_SPACING` ticks across the board's target width, one shovel
/// above the center line and one below (the flag tells which).
pub fn spawn_shovels(bullet_board: &BulletBoard) -> (r: Vec<(i32, i32, bool)>)
    requires
        bullet_board.wf(),
    ensures
        ({
            let count = bullet_board.target_width as int / SHOVEL_SPACING as int;
            &&& r@.len() == 2 * count
            &&& forall|i: int|
                0 <= i < count ==> #[trigger] r@[2 * i] == (
                    (bullet_board.target_x - bullet_board.target_width / 2 + SHOVEL_HALF_WIDTH
                        + SHOVEL_SPACING * i) as i32,
                    (bullet_board.target_y + SHOVEL_HALF_HEIGHT) as i32,
                    true,
                )
            &&& forall|i: int|
                0 <= i < count ==> #[trigger] r@[2 * i + 1] == (
                    (bullet_board.target_x - bullet_board.target_width / 2 + SHOVEL_HALF_WIDTH
                        + SHOVEL_SPACING * i) as i32,
                    (bullet_board.target_y - SHOVEL_HALF_HEIGHT) as i32,
                    false,
                )
        }),
{
    let count: i32 = bullet_board.target_width / SHOVEL_SPACING;
    let start: i32 = bullet_board.target_x - bullet_board.target_width / 2 + SHOVEL_HALF_WIDTH;
    let mut r: Vec<(i32, i32, bool)> = Vec::new();
    let mut i: i32 = 0;
    while i < count
        invariant
            bullet_board.wf(),
            count == bullet_board.target_width as int / SHOVEL_SPACING as int,
            start == bullet_board.target_x - bullet_board.target_width / 2 + SHOVEL_HALF_WIDTH,
            0 <= i <= count,
            r@.len() == 2 * i,
            forall|k: int|
                0 <= k < i ==> #[trigger] r@[2 * k] == (
                    (start + SHOVEL_SPACING * k) as i32,
                    (bullet_board.target_y + SHOVEL_HALF_HEIGHT) as i32,
                    true,
                ),
            forall|k: int|
                0 <= k < i ==> #[trigger] r@[2 * k + 1] == (
                    (start + SHOVEL_SPACING * k) as i32,
                    (bullet_board.target_y - SHOVEL_HALF_HEIGHT) as i32,
                    false,
                ),
        decreases count - i,
    {
        let x: i32 = start + SHOVEL_SPACING * i;
        r.push((x, bullet_board.target_y + SHOVEL_HALF_HEIGHT, true));
        r.push((x, bullet_board.target_y - SHOVEL_HALF_HEIGHT, false));
        i = i + 1;
    }
    r
}

/// Begin the shovel attack: the board animates to the tunnel layout and
/// the clocks restart.
pub fn enter_shovel_attack(
    shovel_attack: &mut ShovelAttack,
    bullet_board: &mut BulletBoard,
    tunnel_layout: BoardLayout,
    dodge_manager: &mut DodgingPhaseManager,
)
    requires
        old(bullet_board).wf(),
        tunnel_layout.wf(),
    ensures
        final(bullet_board).wf(),
        final(bullet_board).target_width == tunnel_layout.width,
        final(bullet_board).target_height == tunnel_layout.height,
        final(bullet_board).target_x == tunnel_layout.x,
        final(bullet_board).target_y == tunnel_layout.y,
        final(dodge_manager).time == DODGE_PHASE_FRAMES,
        final(shovel_attack).timer == 0,
{
    bullet_board.transition_board(tunnel_layout);
    dodge_manager.time = DODGE_PHASE_FRAMES;
    shovel_attack.timer = 0;
}

} // verus!
