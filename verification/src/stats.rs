//! Combat stat blocks and battle progress counters.

use vstd::prelude::*;

verus! {

/// Stat block of one combatant in the tactics demo.
#[derive(Clone, Copy, PartialEq, Eq, Structural, Debug)]
pub struct Stats {
    pub hp: i32,
    pub max_hp: i32,
    /// Number of tiles the unit can move per turn.
    pub movement: u32,
    /// Attack range in tiles.
    pub range: u32,
    pub attack: i32,
    pub defense: i32,
    pub speed: u32,
    pub max_move: u32,
}

impl Stats {
    /// Health sits between zero and the maximum.
    pub open spec fn wf(self) -> bool {
        0 <= self.hp <= self.max_hp
    }
}

/// The dodging player's pool: health plus the invincibility and flashing
/// timers, all counted in whole animation frames.
#[derive(Clone, Copy, PartialEq, Eq, Structural, Debug)]
pub struct PlayerStats {
    pub health: i32,
    pub max_health: i32,
    /// Frames of invincibility left after a hit.
    pub invincibility: i32,
    /// Frames until the sprite's visibility toggles while invincible.
    pub flash_animation: i32,
    /// Frames between two visibility toggles.
    pub interval: i32,
}

impl PlayerStats {
    pub open spec fn wf(self) -> bool {
        &&& 0 <= self.health <= self.max_health
        &&& self.max_health <= 1_000_000
        &&& -1_000_000 <= self.invincibility <= 1_000_000
        &&& -1_000_000 <= self.flash_animation <= 1_000_000
        &&& 0 <= self.interval <= 1_000_000
    }
}

/// How far the scripted battle has advanced: which enemy turn comes next
/// and how much health the opponent has left.
#[derive(Clone, Copy, PartialEq, Eq, Structural, Debug)]
pub struct Progress {
    pub turns: i32,
    pub health: i32,
}

impl Progress {
    pub fn new() -> (r: Progress)
        ensures
            r.turns == 0,
            r.health == 1,
    {
        Progress { turns: 0, health: 1 }
    }
}

/// Width in ticks of the filled part of a health bar `total` ticks wide:
/// the health share of the maximum, truncated, and never past the bar.
pub open spec fn spec_health_bar_fill(health: int, max_health: int, total: int) -> int
    recommends
        max_health >= 1,
        0 <= health,
        0 <= total,
{
    let raw = health * total / max_health;
    if raw > total {
        total
    } else {
        raw
    }
}

pub fn health_bar_fill(health: i32, max_health: i32, total: i32) -> (r: i32)
    requires
        1 <= max_health <= 1_000_000,
        0 <= health <= 1_000_000,
        0 <= total <= 1_000_000,
    ensures
        r == spec_health_bar_fill(health as int, max_health as int, total as int),
        0 <= r <= total,
{
    proof {
        assert(0 <= health * total <= 1_000_000_000_000) by (nonlinear_arith)
            requires
                0 <= health <= 1_000_000,
                0 <= total <= 1_000_000,
        ;
        assert((health * total) as int / max_health as int >= 0) by (nonlinear_arith)
            requires
                0 <= health * total,
                max_health >= 1,
        ;
        assert((health * total) as int / max_health as int <= 1_000_000_000_000)
            by (nonlinear_arith)
            requires
                0 <= health * total <= 1_000_000_000_000,
                max_health >= 1,
        ;
    }
    let raw: i64 = health as i64 * total as i64 / max_health as i64;
    if raw > total as i64 {
        total
    } else {
        raw as i32
    }
}

/// The health figure a draining enemy health bar shows partway through the
/// strike animation: the new value plus the still-animated share of the
/// damage dealt.
pub open spec fn spec_displayed_health(old_health: int, new_health: int, anim_num: int, anim_den: int) -> int
    recommends
        anim_den >= 1,
{
    new_health + (old_health - new_health) * anim_num / anim_den
}

pub fn displayed_health(old_health: i32, new_health: i32, anim_num: i32, anim_den: i32) -> (r: i32)
    requires
        0 <= new_health <= 1_000_000,
        new_health <= old_health <= 1_000_000,
        1 <= anim_den <= 1_000_000,
        0 <= anim_num <= anim_den,
    ensures
        r == spec_displayed_health(
            old_health as int, new_health as int, anim_num as int, anim_den as int,
        ),
        new_health <= r <= old_health,
{
    let diff: i64 = old_health as i64 - new_health as i64;
    proof {
        assert(0 <= diff * anim_num <= 1_000_000_000_000) by (nonlinear_arith)
            requires
                0 <= diff <= 1_000_000,
                0 <= anim_num <= 1_000_000,
        ;
        assert((diff * anim_num) as int / anim_den as int <= diff) by (nonlinear_arith)
            requires
                0 <= diff,
                0 <= anim_num <= anim_den,
                1 <= anim_den,
        ;
        assert((diff * anim_num) as int / anim_den as int >= 0) by (nonlinear_arith)
            requires
                0 <= diff * anim_num,
                1 <= anim_den,
        ;
    }
    let share: i64 = diff * anim_num as i64 / anim_den as i64;
    new_health + share as i32
}

} // verus!
