//! The fight phase: the sliding timing bar, the strike, and the damage
//! dealt to the opponent.
//!
//! The timing bar slides across the board; pressing the strike at the right
//! moment deals damage scaled by the distance from the center, plus a small
//! random bonus.  Attack and defense are whole points; the random bonus is
//! counted in hundredths of a point, and the bar position in ticks.

use vstd::prelude::*;
use rand::Rng;
use crate::COORD_LIMIT;
use crate::board::BulletBoard;
use crate::geom::abs_int;
use crate::interp::{round_div, spec_round_div};
use crate::menu::MenuState;
use crate::menu_transition::MenuTransition;
use crate::stats::Progress;

verus! {

/// Half the width of the timing target, in ticks.
pub const TARGET_HALF_WIDTH: i32 = 2825;

/// Distance from the center, in ticks, still counted as a perfect strike.
pub const PERFECT_STRIKE_DISTANCE: i32 = 120;

/// Smallest random strike bonus, in hundredths of a point (inclusive).
pub const ROLL_LOW: i32 = 100;

/// Largest random strike bonus, in hundredths of a point (exclusive).
pub const ROLL_HIGH: i32 = 200;

/// State of the fight phase.
#[derive(Clone, Copy, PartialEq, Eq, Structural, Debug)]
pub struct FightManager {
    /// Frames left of the strike animation.
    pub attack_animation: i32,
    /// Frames left of the bar's fade-out after the animation.
    pub fade_timer: i32,
    /// A strike has been made (or the bar ran out).
    pub strike: bool,
    /// Bar position, in ticks from the board center.
    pub position: i32,
    /// The fight menu is done and control is to leave it.
    pub exit_fight_menu: bool,
    /// Damage is to be applied on the next logic step.
    pub trigger_damage: bool,
    /// The strike missed (the bar ran off the end).
    pub miss: bool,
    /// Frames of the opponent's death animation.
    pub death_animation: i32,
}

impl FightManager {
    pub open spec fn wf(self) -> bool {
        &&& -1_000_000 <= self.attack_animation <= 1_000_000
        &&& -1_000_000 <= self.fade_timer <= 1_000_000
        &&& -2 * COORD_LIMIT <= self.position <= 2 * COORD_LIMIT
        &&& -1_000_000 <= self.death_animation <= 1_000_000
    }

    pub fn new() -> (r: FightManager)
        ensures
            r.wf(),
            r == (FightManager {
                attack_animation: 0, fade_timer: 0, strike: false, position: 0,
                exit_fight_menu: false, trigger_damage: false, miss: false,
                death_animation: 0,
            }),
    {
        FightManager {
            attack_animation: 0,
            fade_timer: 0,
            strike: false,
            position: 0,
            exit_fight_menu: false,
            trigger_damage: false,
            miss: false,
            death_animation: 0,
        }
    }

    /// Register a strike: damage is triggered only on the first strike of
    /// the phase.
    pub fn trigger_damage(&mut self)
        ensures
            final(self).trigger_damage == (old(self).trigger_damage || !old(self).strike),
            final(self).strike,
            final(self).attack_animation == old(self).attack_animation,
            final(self).fade_timer == old(self).fade_timer,
            final(self).position == old(self).position,
            final(self).exit_fight_menu == old(self).exit_fight_menu,
            final(self).miss == old(self).miss,
            final(self).death_animation == old(self).death_animation,
    {
        if !self.strike {
            self.trigger_damage = true;
        }
        self.strike = true;
    }

    /// Enter the fight phase: the bar starts just left of the board and
    /// the timers are rewound.
    pub fn init_fight(&mut self, bullet_board: &BulletBoard, fade_time: i32, attack_animation: i32)
        requires
            old(self).wf(),
            bullet_board.wf(),
            -1_000_000 <= fade_time <= 1_000_000,
            -1_000_000 <= attack_animation <= 1_000_000,
        ensures
            final(self).wf(),
            final(self).position == -bullet_board.border - bullet_board.width / 2,
            final(self).fade_timer == fade_time,
            final(self).attack_animation == attack_animation,
            !final(self).exit_fight_menu,
            !final(self).strike,
            final(self).trigger_damage == old(self).trigger_damage,
            final(self).miss == old(self).miss,
            final(self).death_animation == old(self).death_animation,
    {
        self.position = -bullet_board.border - bullet_board.width / 2;
        self.fade_timer = fade_time;
        self.attack_animation = attack_animation;
        self.exit_fight_menu = false;
        self.strike = false;
    }

    /// One frame of the sliding bar.  Before a strike the bar advances by
    /// `attack_speed`; running off the right edge counts as a missed
    /// strike.  Returns whether the bar should show its flash animation.
    pub fn update_fight_bar(&mut self, bullet_board: &BulletBoard, attack_speed: i32) -> (flash: bool)
        requires
            old(self).wf(),
            bullet_board.wf(),
            0 <= attack_speed <= 1_000_000,
            old(self).position <= COORD_LIMIT / 2,
        ensures
            final(self).wf(),
            flash == old(self).strike,
            old(self).strike ==> *final(self) == *old(self),
            !old(self).strike ==> {
                let moved = old(self).position + attack_speed;
                &&& final(self).position == moved
                &&& moved >= bullet_board.width / 2 + bullet_board.border
                    ==> final(self).strike && final(self).miss && final(self).trigger_damage
                &&& moved < bullet_board.width / 2 + bullet_board.border
                    ==> final(self).strike == old(self).strike
                        && final(self).miss == old(self).miss
                        && final(self).trigger_damage == old(self).trigger_damage
            },
            final(self).attack_animation == old(self).attack_animation,
            final(self).fade_timer == old(self).fade_timer,
            final(self).exit_fight_menu == old(self).exit_fight_menu,
            final(self).death_animation == old(self).death_animation,
    {
        if !self.strike {
            self.position = self.position + attack_speed;
            if self.position >= bullet_board.width / 2 + bullet_board.border {
                self.trigger_damage();
                self.miss = true;
            }
            false
        } else {
            true
        }
    }
}

/// What the opponent's draining health bar shows after a strike.
#[derive(Clone, Copy, PartialEq, Eq, Structural, Debug)]
pub struct OpponentHealthBarManager {
    pub old_health: i32,
    pub new_health: i32,
    pub damage_display: i32,
}

impl OpponentHealthBarManager {
    pub fn new() -> (r: OpponentHealthBarManager)
        ensures
            r == (OpponentHealthBarManager { old_health: 0, new_health: 0, damage_display: 0 }),
    {
        OpponentHealthBarManager { old_health: 0, new_health: 0, damage_display: 0 }
    }
}

/// What one logic step after a strike does, for a given damage figure
/// `dmg`: apply the damage once, run down the strike animation, then the
/// fade; when both are out, either park the opponent's death or hand
/// control back and ask for the enemy attack to advance.
pub open spec fn spec_fight_logic(
    m: FightManager,
    prog: Progress,
    bar: OpponentHealthBarManager,
    pending: Option<MenuState>,
    dmg: int,
    dt: int,
) -> (FightManager, Progress, OpponentHealthBarManager, Option<MenuState>, bool) {
    if !m.strike {
        (m, prog, bar, pending, false)
    } else {
        let (prog1, bar1) = if m.trigger_damage && !m.miss {
            let h = if prog.health - dmg < 0 { 0int } else { prog.health - dmg };
            (
                Progress { health: h as i32, ..prog },
                OpponentHealthBarManager {
                    damage_display: dmg as i32,
                    old_health: prog.health,
                    new_health: h as i32,
                },
            )
        } else {
            (prog, bar)
        };
        let m1 = FightManager { trigger_damage: false, ..m };
        let anim = m1.attack_animation - dt;
        if anim > 0 {
            (FightManager { attack_animation: anim as i32, ..m1 }, prog1, bar1, pending, false)
        } else {
            let fade = if m1.fade_timer - dt < -1_000_000 {
                -1_000_000int
            } else {
                m1.fade_timer - dt
            };
            let m2 = FightManager {
                attack_animation: 0,
                fade_timer: fade as i32,
                strike: fade > 0,
                ..m1
            };
            if prog1.health <= 0 {
                (m2, prog1, bar1, Some(MenuState::EnemyDeath), false)
            } else {
                (
                    FightManager { exit_fight_menu: true, ..m2 },
                    prog1,
                    bar1,
                    pending,
                    !m1.exit_fight_menu,
                )
            }
        }
    }
}

/// One logic step of the fight phase.  The damage figure carries a fresh
/// random bonus, so the outcome is pinned down up to that roll.  Returns
/// whether the enemy's attack script is to advance.
pub fn update_fight_logic(
    fight: &mut FightManager,
    progress: &mut Progress,
    bar_manager: &mut OpponentHealthBarManager,
    menu_transition: &mut MenuTransition,
    atk: i32,
    def: i32,
    dt: i32,
) -> (advance_attacks: bool)
    requires
        old(fight).wf(),
        -100_000 <= atk <= 100_000,
        -100_000 <= def <= 100_000,
        0 <= dt <= 1_000_000,
        0 <= old(progress).health <= 1_000_000,
    ensures
        final(fight).wf(),
        exists|roll: int|
            #![trigger spec_damage_formula(atk as int, def as int, old(fight).position as int, roll)]
            ROLL_LOW as int <= roll < ROLL_HIGH as int && {
                let (m, p, b, t, adv) = spec_fight_logic(
                    *old(fight), *old(progress), *old(bar_manager),
                    old(menu_transition).new_menu,
                    spec_damage_formula(atk as int, def as int, old(fight).position as int, roll),
                    dt as int,
                );
                &&& *final(fight) == m
                &&& *final(progress) == p
                &&& *final(bar_manager) == b
                &&& final(menu_transition).new_menu == t
                &&& advance_attacks == adv
            },
{
    if !fight.strike {
        proof {
            let dmg = spec_damage_formula(atk as int, def as int, old(fight).position as int, 100);
            assert(spec_fight_logic(
                *old(fight), *old(progress), *old(bar_manager),
                old(menu_transition).new_menu, dmg, dt as int,
            ) == (
                *old(fight), *old(progress), *old(bar_manager),
                old(menu_transition).new_menu, false,
            ));
        }
        return false;
    }
    let ghost mut picked_roll: int = 100;
    if fight.trigger_damage && !fight.miss {
        let roll: i32 = roll_range(ROLL_LOW, ROLL_HIGH);
        proof {
            picked_roll = roll as int;
        }
        let damage: i32 = damage_formula(atk, def, fight.position, roll);
        bar_manager.damage_display = damage;
        bar_manager.old_health = progress.health;
        let h: i32 = progress.health - damage;
        progress.health = if h < 0 { 0 } else { h };
        bar_manager.new_health = progress.health;
    }
    fight.trigger_damage = false;
    let anim: i32 = fight.attack_animation - dt;
    if anim > 0 {
        fight.attack_animation = anim;
        proof {
            // Name the damage figure for the chosen roll, so the solver
            // can pick that roll as the witness for the postcondition.
            assert(ROLL_LOW as int <= picked_roll < ROLL_HIGH as int);
            let dmg = spec_damage_formula(
                atk as int, def as int, old(fight).position as int, picked_roll,
            );
        }
        return false;
    }
    fight.attack_animation = 0;
    let dropped: i32 = fight.fade_timer - dt;
    let fade: i32 = if dropped < -1_000_000 { -1_000_000 } else { dropped };
    fight.fade_timer = fade;
    fight.strike = fade > 0;
    let advance: bool = if progress.health <= 0 {
        menu_transition.new_state(MenuState::EnemyDeath);
        false
    } else {
        let adv: bool = !fight.exit_fight_menu;
        fight.exit_fight_menu = true;
        adv
    };
    proof {
        // As above: make the chosen roll's damage figure a known term.
        assert(ROLL_LOW as int <= picked_roll < ROLL_HIGH as int);
        let dmg = spec_damage_formula(
            atk as int, def as int, old(fight).position as int, picked_roll,
        );
    }
    advance
}

/// Step to the next scripted enemy attack, wrapping at the end of the
/// script.
pub fn advance_turn(progress: &mut Progress, attacks_len: i32)
    requires
        1 <= attacks_len <= 1_000_000,
        0 <= old(progress).turns < attacks_len,
    ensures
        final(progress).turns == (old(progress).turns + 1) % (attacks_len as int),
        0 <= final(progress).turns < attacks_len,
        final(progress).health == old(progress).health,
{
    let next: i32 = progress.turns + 1;
    progress.turns = if next == attacks_len { 0 } else { next };
    proof {
        if next == attacks_len {
            vstd::arithmetic::div_mod::lemma_mod_self_0(attacks_len as int);
        } else {
            vstd::arithmetic::div_mod::lemma_small_mod(next as nat, attacks_len as nat);
        }
    }
}

/// Relies on rand::Rng::gen_range on a half-open integer range: the value
/// returned lies in the range.  The range given is never empty.
#[verifier::external_body]
fn roll_range(lo: i32, hi: i32) -> (r: i32)
    requires
        lo < hi,
    ensures
        lo <= r < hi,
{
    rand::thread_rng().gen_range(lo..hi)
}

/// The strike damage for a given random bonus `roll` (in hundredths of a
/// point): attack plus ten minus defense plus the bonus, doubled — with a
/// ten-percent premium for a perfect strike, and otherwise scaled down by
/// the bar's distance from the center.
pub open spec fn spec_damage_formula(atk: int, def: int, position: int, roll: int) -> int {
    let base = (atk + 10 - def) * 100 + roll;
    let d = abs_int(position);
    if d <= PERFECT_STRIKE_DISTANCE as int {
        spec_round_div(base * 22, 1000)
    } else {
        spec_round_div(base * 2 * (TARGET_HALF_WIDTH - d), TARGET_HALF_WIDTH as int * 100)
    }
}

/// The deterministic part of the damage computation.
pub fn damage_formula(atk: i32, def: i32, position: i32, roll: i32) -> (r: i32)
    requires
        -100_000 <= atk <= 100_000,
        -100_000 <= def <= 100_000,
        -2 * COORD_LIMIT <= position <= 2 * COORD_LIMIT,
        ROLL_LOW <= roll < ROLL_HIGH,
    ensures
        r == spec_damage_formula(atk as int, def as int, position as int, roll as int),
        -1_000_000_000 <= r <= 1_000_000_000,
{
    let base: i64 = (atk as i64 + 10 - def as i64) * 100 + roll as i64;
    let d: i32 = if position >= 0 { position } else { -position };
    if d <= PERFECT_STRIKE_DISTANCE {
        let v: i64 = round_div(base * 22, 1000);
        proof {
            assert(-1_000_000_000 <= spec_round_div(base * 22, 1000) <= 1_000_000_000)
                by (nonlinear_arith)
                requires
                    -21_000_000 <= base <= 21_000_000,
            ;
        }
        v as i32
    } else {
        let scale: i64 = 2 * (TARGET_HALF_WIDTH as i64 - d as i64);
        proof {
            assert(base * 2 * (TARGET_HALF_WIDTH - d) == base * scale) by (nonlinear_arith)
                requires
                    scale == 2 * (TARGET_HALF_WIDTH - d),
            ;
            assert(-0x1_0000_0000_0000 <= base * scale <= 0x1_0000_0000_0000)
                by (nonlinear_arith)
                requires
                    -21_000_000 <= base <= 21_000_000,
                    -4_000_060 <= scale <= 5_650,
            ;
        }
        let v: i64 = round_div(base * scale, TARGET_HALF_WIDTH as i64 * 100);
        proof {
            assert(-1_000_000_000 <= spec_round_div(base * scale, 282_500)
                <= 1_000_000_000) by (nonlinear_arith)
                requires
                    -0x1_0000_0000_0000 <= base * scale <= 0x1_0000_0000_0000,
            ;
        }
        v as i32
    }
}

impl FightManager {
    /// Strike damage against the given defense: the formula above with a
    /// fresh random bonus.
    pub fn calculate_damage(&self, atk: i32, def: i32) -> (r: i32)
        requires
            self.wf(),
            -100_000 <= atk <= 100_000,
            -100_000 <= def <= 100_000,
        ensures
            exists|roll: int|
                #![auto]
                ROLL_LOW as int <= roll < ROLL_HIGH as int
                    && r == spec_damage_formula(
                    atk as int, def as int, self.position as int, roll,
                ),
    {
        let roll: i32 = roll_range(ROLL_LOW, ROLL_HIGH);
        damage_formula(atk, def, self.position, roll)
    }
}

} // verus!
