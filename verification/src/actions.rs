//! The minimal turn AI of the unit demo: attack the first enemy in reach,
//! otherwise step toward the right; then resolve the attack and hand the
//! turn over.

use vstd::prelude::*;

verus! {

/// A unit's square on the demo's grid.
#[derive(Clone, Copy, PartialEq, Eq, Structural, Debug)]
pub struct Position {
    pub x: i32,
    pub y: i32,
}

/// What a unit decides to do with its turn.
#[derive(Clone, Copy, PartialEq, Eq, Structural, Debug)]
pub enum ActionType {
    /// Move to a new position.
    Move(Position),
    /// Attack the unit with this id.
    Attack(u64),
}

/// Whose units act, or that actions are still being resolved.
#[derive(Clone, Copy, PartialEq, Eq, Structural, Debug)]
pub enum TurnState {
    PlayerTurn,
    EnemyTurn,
    ProcessingTurn,
}

pub open spec fn spec_in_range(attacker: Position, enemy: Position, range: int) -> bool {
    crate::geom::abs_int(attacker.x - enemy.x) + crate::geom::abs_int(attacker.y - enemy.y)
        <= range
}

/// Choose a unit's action: attack the first listed enemy within Manhattan
/// range, and failing that step one square toward positive x.
pub fn decide_action(
    attacker_position: &Position,
    attack_range: i32,
    enemies: &Vec<(u64, Position)>,
) -> (r: Option<ActionType>)
    requires
        -1_000_000 <= attacker_position.x <= 1_000_000,
        -1_000_000 <= attacker_position.y <= 1_000_000,
        forall|j: int|
            0 <= j < enemies@.len() ==> -1_000_000 <= (#[trigger] enemies@[j]).1.x <= 1_000_000
                && -1_000_000 <= enemies@[j].1.y <= 1_000_000,
    ensures
        match r {
            Some(ActionType::Attack(target)) => exists|k: int|
                {
                    &&& 0 <= k < enemies@.len()
                    &&& #[trigger] enemies@[k].0 == target
                    &&& spec_in_range(*attacker_position, enemies@[k].1, attack_range as int)
                    &&& forall|j: int|
                        0 <= j < k ==> !spec_in_range(
                            *attacker_position, (#[trigger] enemies@[j]).1, attack_range as int,
                        )
                },
            Some(ActionType::Move(p)) => p.x == attacker_position.x + 1
                && p.y == attacker_position.y
                && forall|j: int|
                    0 <= j < enemies@.len() ==> !spec_in_range(
                        *attacker_position, (#[trigger] enemies@[j]).1, attack_range as int,
                    ),
            None => false,
        },
{
    let mut i: usize = 0;
    while i < enemies.len()
        invariant
            0 <= i <= enemies@.len(),
            -1_000_000 <= attacker_position.x <= 1_000_000,
            -1_000_000 <= attacker_position.y <= 1_000_000,
            forall|j: int|
                0 <= j < enemies@.len() ==> -1_000_000 <= (#[trigger] enemies@[j]).1.x
                    <= 1_000_000 && -1_000_000 <= enemies@[j].1.y <= 1_000_000,
            forall|j: int|
                0 <= j < i ==> !spec_in_range(
                    *attacker_position, (#[trigger] enemies@[j]).1, attack_range as int,
                ),
        decreases enemies@.len() - i,
    {
        let enemy: (u64, Position) = enemies[i];
        let dx: i32 = if attacker_position.x >= enemy.1.x {
            attacker_position.x - enemy.1.x
        } else {
            enemy.1.x - attacker_position.x
        };
        let dy: i32 = if attacker_position.y >= enemy.1.y {
            attacker_position.y - enemy.1.y
        } else {
            enemy.1.y - attacker_position.y
        };
        if dx + dy <= attack_range {
            return Some(ActionType::Attack(enemy.0));
        }
        i = i + 1;
    }
    Some(ActionType::Move(Position { x: attacker_position.x + 1, y: attacker_position.y }))
}

/// Land an attack: every unit with the target's id loses the damage, no
/// one else changes.  A unit at or below zero health afterwards is
/// defeated; the caller removes it.
pub fn apply_attack(units: &mut Vec<(u64, i32)>, target: u64, damage: i32)
    requires
        0 <= damage <= 1_000_000,
        forall|j: int|
            0 <= j < old(units)@.len() ==> -1_000_000 <= (#[trigger] old(units)@[j]).1
                <= 1_000_000,
    ensures
        final(units)@.len() == old(units)@.len(),
        forall|j: int|
            0 <= j < old(units)@.len() && old(units)@[j].0 == target
                ==> #[trigger] final(units)@[j] == (
                old(units)@[j].0, (old(units)@[j].1 - damage) as i32,
            ),
        forall|j: int|
            0 <= j < old(units)@.len() && old(units)@[j].0 != target
                ==> #[trigger] final(units)@[j] == old(units)@[j],
{
    let n: usize = units.len();
    let mut i: usize = 0;
    while i < n
        invariant
            n == units@.len() == old(units)@.len(),
            0 <= i <= n,
            0 <= damage <= 1_000_000,
            forall|j: int|
                0 <= j < n ==> -1_000_000 <= (#[trigger] old(units)@[j]).1 <= 1_000_000,
            forall|j: int|
                0 <= j < i && old(units)@[j].0 == target
                    ==> #[trigger] units@[j] == (
                    old(units)@[j].0, (old(units)@[j].1 - damage) as i32,
                ),
            forall|j: int|
                0 <= j < i && old(units)@[j].0 != target
                    ==> #[trigger] units@[j] == old(units)@[j],
            forall|j: int| i <= j < n ==> #[trigger] units@[j] == old(units)@[j],
        decreases n - i,
    {
        let unit: (u64, i32) = units[i];
        if unit.0 == target {
            units.set(i, (unit.0, unit.1 - damage));
        }
        i = i + 1;
    }
}

/// Hand the turn to the other side.
pub fn switch_turn(is_player_turn: bool) -> (r: TurnState)
    ensures
        is_player_turn ==> r is EnemyTurn,
        !is_player_turn ==> r is PlayerTurn,
{
    if is_player_turn {
        TurnState::EnemyTurn
    } else {
        TurnState::PlayerTurn
    }
}

} // verus!
