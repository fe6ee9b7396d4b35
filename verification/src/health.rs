//! Damage resolution for the dodging phase.
//!
//! Each fixed step, the first damage source whose hitbox overlaps the
//! player's is applied: the player loses that source's damage once and
//! becomes invincible for a configured number of frames.  While the
//! invincibility timer is positive no further source can land, so
//! overlapping frames within one window cost exactly one decrement.

use vstd::prelude::*;
use crate::menu::MenuState;
use crate::menu_transition::MenuTransition;
use crate::physics::PhysicsComponent;
use crate::stats::PlayerStats;

verus! {

/// A damage-dealing scene object: how much one touch costs.
#[derive(Clone, Copy, PartialEq, Eq, Structural, Debug)]
pub struct Damage {
    pub damage: i32,
}

/// Whether the source's hitbox overlaps the player's.
pub open spec fn spec_hits(player: PhysicsComponent, source: PhysicsComponent) -> bool {
    player.spec_hitbox().spec_intersects(source.spec_hitbox())
}

/// Index of the first source at or after `i` that overlaps the player.
pub open spec fn spec_first_hit_from(
    player: PhysicsComponent, sources: Seq<(PhysicsComponent, Damage)>, i: int,
) -> Option<int>
    decreases sources.len() - i,
{
    if i < 0 || i >= sources.len() {
        None
    } else if spec_hits(player, sources[i].0) {
        Some(i)
    } else {
        spec_first_hit_from(player, sources, i + 1)
    }
}

pub open spec fn spec_first_hit(
    player: PhysicsComponent, sources: Seq<(PhysicsComponent, Damage)>,
) -> Option<int> {
    spec_first_hit_from(player, sources, 0)
}

/// What one damage pass does to the player's stats and to the pending menu
/// transition: nothing while invincible or untouched; otherwise the first
/// overlapping source lands once, invincibility restarts, and an emptied
/// health pool parks a restart transition.
pub open spec fn spec_update_damage(
    stats: PlayerStats,
    pending: Option<MenuState>,
    player: PhysicsComponent,
    sources: Seq<(PhysicsComponent, Damage)>,
    iframes: int,
) -> (PlayerStats, Option<MenuState>) {
    if stats.invincibility > 0 {
        (stats, pending)
    } else {
        match spec_first_hit(player, sources) {
            None => (stats, pending),
            Some(k) => {
                let dmg = sources[k].1.damage;
                let hurt = PlayerStats {
                    invincibility: iframes as i32,
                    health: (stats.health - dmg) as i32,
                    ..stats
                };
                if stats.health - dmg <= 0 {
                    (PlayerStats { health: 0, ..hurt }, Some(MenuState::Restart))
                } else {
                    (hurt, pending)
                }
            },
        }
    }
}

/// One damage pass.  Returns the index of the source that landed, if any.
pub fn update_damage(
    player: &PhysicsComponent,
    stats: &mut PlayerStats,
    sources: &Vec<(PhysicsComponent, Damage)>,
    iframes: i32,
    menu_transition: &mut MenuTransition,
) -> (hit: Option<usize>)
    requires
        player.wf(),
        old(stats).wf(),
        0 <= iframes <= 1_000_000,
        forall|j: int| 0 <= j < sources@.len() ==> (#[trigger] sources@[j]).0.wf(),
        forall|j: int|
            0 <= j < sources@.len()
                ==> 0 <= (#[trigger] sources@[j]).1.damage <= 1_000_000,
    ensures
        ({
            let (s, p) = spec_update_damage(
                *old(stats), old(menu_transition).new_menu, *player, sources@, iframes as int,
            );
            &&& *final(stats) == s
            &&& final(menu_transition).new_menu == p
        }),
        old(stats).invincibility > 0 ==> hit is None,
        match hit {
            Some(k) => spec_first_hit(*player, sources@) == Some(k as int),
            None => spec_first_hit(*player, sources@) is None
                || old(stats).invincibility > 0,
        },
        final(stats).wf(),
{
    if stats.invincibility > 0 {
        return None;
    }
    let rect_1 = player.hitbox();
    let mut i: usize = 0;
    while i < sources.len()
        invariant
            player.wf(),
            rect_1 == player.spec_hitbox(),
            0 <= i <= sources@.len(),
            *stats == *old(stats),
            old(stats).wf(),
            old(stats).invincibility <= 0,
            *menu_transition == *old(menu_transition),
            0 <= iframes <= 1_000_000,
            forall|j: int| 0 <= j < sources@.len() ==> (#[trigger] sources@[j]).0.wf(),
            forall|j: int|
                0 <= j < sources@.len()
                    ==> 0 <= (#[trigger] sources@[j]).1.damage <= 1_000_000,
            forall|j: int| 0 <= j < i ==> !spec_hits(*player, (#[trigger] sources@[j]).0),
            spec_first_hit(*player, sources@) == spec_first_hit_from(*player, sources@, i as int),
        decreases sources@.len() - i,
    {
        let source: (PhysicsComponent, Damage) = sources[i];
        let rect_2 = source.0.hitbox();
        if rect_1.intersects(rect_2) {
            stats.invincibility = iframes;
            stats.health = stats.health - source.1.damage;
            if stats.health <= 0 {
                stats.health = 0;
                menu_transition.new_state(MenuState::Restart);
            }
            return Some(i);
        }
        i = i + 1;
    }
    None
}

/// One frame of the invincibility and flash timers.  The invincibility
/// timer falls by `dt` frames (held at a floor so it cannot run away);
/// while it has not yet run out the flash timer falls too and flips the
/// sprite's visibility each time it reaches zero; once it has run out the
/// sprite is simply visible.
pub fn update_flash_animation(stats: &mut PlayerStats, dt: i32, visible: bool) -> (v: bool)
    requires
        old(stats).wf(),
        0 <= dt <= 1_000_000,
    ensures
        final(stats).wf(),
        final(stats).health == old(stats).health,
        final(stats).max_health == old(stats).max_health,
        final(stats).interval == old(stats).interval,
        final(stats).invincibility == if old(stats).invincibility - dt < -1_000_000 {
            -1_000_000int
        } else {
            old(stats).invincibility - dt
        },
        old(stats).invincibility - dt >= 0 ==> {
            &&& old(stats).flash_animation - dt <= 0
                ==> final(stats).flash_animation == old(stats).interval && v == !visible
            &&& old(stats).flash_animation - dt > 0
                ==> final(stats).flash_animation == old(stats).flash_animation - dt
                    && v == visible
        },
        old(stats).invincibility - dt < 0
            ==> final(stats).flash_animation == old(stats).flash_animation && v == true,
{
    let next: i32 = stats.invincibility - dt;
    stats.invincibility = if next < -1_000_000 { -1_000_000 } else { next };
    if next >= 0 {
        let flash: i32 = stats.flash_animation - dt;
        if flash <= 0 {
            stats.flash_animation = stats.interval;
            !visible
        } else {
            stats.flash_animation = flash;
            visible
        }
    } else {
        true
    }
}

/// Damage application is idempotent within one invincibility window: once
/// a pass has run on a vulnerable player, running the very same pass again
/// changes neither the stats nor the pending transition, so overlapping
/// frames produce exactly one health decrement.
pub proof fn lemma_damage_idempotent(
    stats: PlayerStats,
    pending: Option<MenuState>,
    player: PhysicsComponent,
    sources: Seq<(PhysicsComponent, Damage)>,
    iframes: int,
)
    requires
        stats.invincibility <= 0,
        1 <= iframes <= 1_000_000,
    ensures
        ({
            let (s1, p1) = spec_update_damage(stats, pending, player, sources, iframes);
            let (s2, p2) = spec_update_damage(s1, p1, player, sources, iframes);
            s2 == s1 && p2 == p1
        }),
{
}

/// While the invincibility window is open, a damage pass is a no-op.
pub proof fn lemma_no_damage_while_invincible(
    stats: PlayerStats,
    pending: Option<MenuState>,
    player: PhysicsComponent,
    sources: Seq<(PhysicsComponent, Damage)>,
    iframes: int,
)
    requires
        stats.invincibility > 0,
    ensures
        spec_update_damage(stats, pending, player, sources, iframes) == (stats, pending),
{
}

} // verus!
