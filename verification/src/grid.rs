//! Grid tactics: tile positions, movement range, turn alternation, and the
//! enemy move chosen each turn.
//!
//! Units move on a rectangular grid; a move is allowed when its Manhattan
//! distance is within the unit's movement stat.  Each enemy tries the four
//! neighbouring tiles in a random order and takes the first free one.

use vstd::prelude::*;
use rand::seq::SliceRandom;

verus! {

/// A tile coordinate on the grid.
#[derive(Clone, Copy, PartialEq, Eq, Structural, Debug)]
pub struct TilePos {
    pub x: u32,
    pub y: u32,
}

/// Whose side is acting.
#[derive(Clone, Copy, PartialEq, Eq, Structural, Debug)]
pub enum Turn {
    Player,
    AI,
}

/// Manhattan distance between two tiles.
pub open spec fn spec_manhattan(a: TilePos, b: TilePos) -> int {
    let dx = if a.x >= b.x { a.x - b.x } else { b.x - a.x };
    let dy = if a.y >= b.y { a.y - b.y } else { b.y - a.y };
    dx + dy
}

pub fn manhattan(a: TilePos, b: TilePos) -> (r: u64)
    requires
        a.x <= 1_000_000 && a.y <= 1_000_000 && b.x <= 1_000_000 && b.y <= 1_000_000,
    ensures
        r == spec_manhattan(a, b),
{
    let dx: u32 = if a.x >= b.x { a.x - b.x } else { b.x - a.x };
    let dy: u32 = if a.y >= b.y { a.y - b.y } else { b.y - a.y };
    dx as u64 + dy as u64
}

/// Whether a unit standing on `from` may move to `to` with the given
/// movement stat: the Manhattan distance fits.
pub fn within_movement(from: TilePos, to: TilePos, movement: u32) -> (r: bool)
    requires
        from.x <= 1_000_000 && from.y <= 1_000_000,
        to.x <= 1_000_000 && to.y <= 1_000_000,
    ensures
        r == (spec_manhattan(from, to) <= movement),
{
    manhattan(from, to) <= movement as u64
}

/// Attempt the move a click asked for: the unit lands on the tile exactly
/// when the tile is within its movement range.
pub fn try_move_selected_unit(unit_pos: TilePos, tile_pos: TilePos, movement: u32) -> (r: Option<
    TilePos,
>)
    requires
        unit_pos.x <= 1_000_000 && unit_pos.y <= 1_000_000,
        tile_pos.x <= 1_000_000 && tile_pos.y <= 1_000_000,
    ensures
        spec_manhattan(unit_pos, tile_pos) <= movement ==> r == Some(tile_pos),
        spec_manhattan(unit_pos, tile_pos) > movement ==> r is None,
{
    if within_movement(unit_pos, tile_pos, movement) {
        Some(tile_pos)
    } else {
        None
    }
}

/// Whether a cursor at `(cx, cy)` rests on the tile centered at
/// `(tx, ty)` with the given half-extent (edges included).
pub fn cursor_over_tile(cx: i64, cy: i64, tx: i64, ty: i64, half: i64) -> (r: bool)
    requires
        -1_000_000_000 <= cx <= 1_000_000_000,
        -1_000_000_000 <= cy <= 1_000_000_000,
        -1_000_000_000 <= tx <= 1_000_000_000,
        -1_000_000_000 <= ty <= 1_000_000_000,
        0 <= half <= 1_000_000_000,
    ensures
        r == (tx - half <= cx <= tx + half && ty - half <= cy <= ty + half),
{
    cx >= tx - half && cx <= tx + half && cy >= ty - half && cy <= ty + half
}

/// Hand the turn to the player once the machine reports itself done.
pub fn end_ai_turn(turn: &mut Turn, done: &mut bool)
    ensures
        *old(done) ==> *final(turn) is Player && !*final(done),
        !*old(done) ==> *final(turn) == *old(turn) && *final(done) == *old(done),
{
    if *done {
        *done = false;
        *turn = Turn::Player;
    }
}

/// Hand the turn to the machine once the player reports themselves done.
pub fn end_player_turn(turn: &mut Turn, done: &mut bool)
    ensures
        *old(done) ==> *final(turn) is AI && !*final(done),
        !*old(done) ==> *final(turn) == *old(turn) && *final(done) == *old(done),
{
    if *done {
        *done = false;
        *turn = Turn::AI;
    }
}

/// The tile one step in direction `d` from `pos`, if it stays on a
/// `w` by `h` grid.
pub open spec fn spec_step_tile(pos: TilePos, d: (i32, i32), w: int, h: int) -> Option<TilePos> {
    let nx = pos.x + d.0;
    let ny = pos.y + d.1;
    if 0 <= nx < w && 0 <= ny < h {
        Some(TilePos { x: nx as u32, y: ny as u32 })
    } else {
        None
    }
}

/// Whether some unit currently stands on `q`.
pub open spec fn spec_occupied(units: Seq<(TilePos, bool)>, q: TilePos) -> bool {
    exists|j: int| 0 <= j < units.len() && (#[trigger] units[j]).0 == q
}

fn positions_contain(units: &Vec<(TilePos, bool)>, q: TilePos) -> (r: bool)
    ensures
        r == spec_occupied(units@, q),
{
    let mut j: usize = 0;
    while j < units.len()
        invariant
            0 <= j <= units@.len(),
            forall|k: int| 0 <= k < j ==> (#[trigger] units@[k]).0 != q,
        decreases units@.len() - j,
    {
        if units[j].0 == q {
            return true;
        }
        j = j + 1;
    }
    false
}

/// Relies on rand::seq::SliceRandom::shuffle: the slice is permuted in
/// place, so it keeps exactly the same entries.
#[verifier::external_body]
fn shuffle_dirs(dirs: &mut Vec<(i32, i32)>)
    ensures
        final(dirs)@.to_multiset() == old(dirs)@.to_multiset(),
        final(dirs)@.len() == old(dirs)@.len(),
{
    dirs.shuffle(&mut rand::thread_rng());
}

/// No two units share a tile.
pub open spec fn spec_distinct_positions(units: Seq<(TilePos, bool)>) -> bool {
    forall|i: int, j: int|
        0 <= i < j < units.len() ==> (#[trigger] units[i]).0 != (#[trigger] units[j]).0
}

/// All units stand on the `w` by `h` grid.
pub open spec fn spec_on_grid(units: Seq<(TilePos, bool)>, w: int, h: int) -> bool {
    forall|i: int|
        0 <= i < units.len()
            ==> (#[trigger] units[i]).0.x < w && units[i].0.y < h
}

/// Every tile neighbouring `pos` is off the grid or already taken.
pub open spec fn spec_walled_in(
    units: Seq<(TilePos, bool)>, pos: TilePos, w: int, h: int,
) -> bool {
    forall|d: (i32, i32)|
        spec_unit_dir(d) ==> match spec_step_tile(pos, d, w, h) {
            Some(c) => spec_occupied(units, c),
            None => true,
        }
}

/// The configuration unit `i` saw on its turn: units before it in the
/// list have already taken theirs, units from it on have not.
pub open spec fn spec_mid_turn(
    before: Seq<(TilePos, bool)>, after: Seq<(TilePos, bool)>, i: int,
) -> Seq<(TilePos, bool)> {
    Seq::new(before.len(), |j: int| if j < i { after[j] } else { before[j] })
}

/// A unit step in one of the four grid directions.
pub open spec fn spec_unit_dir(d: (i32, i32)) -> bool {
    d == (1i32, 0i32) || d == (-1i32, 0i32) || d == (0i32, 1i32) || d == (0i32, -1i32)
}

/// The first direction in the given order whose neighbouring tile is on
/// the grid and free.
fn choose_free_neighbor(
    units: &Vec<(TilePos, bool)>,
    pos: TilePos,
    dirs: &Vec<(i32, i32)>,
    grid_w: u32,
    grid_h: u32,
) -> (r: Option<TilePos>)
    requires
        1 <= grid_w <= 1_000_000,
        1 <= grid_h <= 1_000_000,
        pos.x < grid_w && pos.y < grid_h,
        forall|m: int| 0 <= m < dirs@.len() ==> spec_unit_dir(#[trigger] dirs@[m]),
    ensures
        match r {
            Some(c) => {
                &&& c.x < grid_w && c.y < grid_h
                &&& !spec_occupied(units@, c)
                &&& spec_manhattan(pos, c) == 1
            },
            None => forall|m: int|
                0 <= m < dirs@.len() ==> match spec_step_tile(
                    pos, #[trigger] dirs@[m], grid_w as int, grid_h as int,
                ) {
                    Some(c) => spec_occupied(units@, c),
                    None => true,
                },
        },
{
    let mut k: usize = 0;
    while k < dirs.len()
        invariant
            1 <= grid_w <= 1_000_000,
            1 <= grid_h <= 1_000_000,
            pos.x < grid_w && pos.y < grid_h,
            0 <= k <= dirs@.len(),
            forall|m: int| 0 <= m < dirs@.len() ==> spec_unit_dir(#[trigger] dirs@[m]),
            forall|m: int|
                0 <= m < k ==> match spec_step_tile(
                    pos, #[trigger] dirs@[m], grid_w as int, grid_h as int,
                ) {
                    Some(c) => spec_occupied(units@, c),
                    None => true,
                },
        decreases dirs@.len() - k,
    {
        let d: (i32, i32) = dirs[k];
        let nx: i64 = pos.x as i64 + d.0 as i64;
        let ny: i64 = pos.y as i64 + d.1 as i64;
        if 0 <= nx && nx < grid_w as i64 && 0 <= ny && ny < grid_h as i64 {
            let cand = TilePos { x: nx as u32, y: ny as u32 };
            if !positions_contain(units, cand) {
                return Some(cand);
            }
        }
        k = k + 1;
    }
    None
}

/// Pick a random free neighbouring tile for the unit at `pos`, or nothing
/// when all four neighbours are off the grid or taken.
pub fn ai_move(units: &Vec<(TilePos, bool)>, pos: TilePos, grid_w: u32, grid_h: u32) -> (r:
    Option<TilePos>)
    requires
        1 <= grid_w <= 1_000_000,
        1 <= grid_h <= 1_000_000,
        pos.x < grid_w && pos.y < grid_h,
    ensures
        match r {
            Some(c) => {
                &&& c.x < grid_w && c.y < grid_h
                &&& !spec_occupied(units@, c)
                &&& spec_manhattan(pos, c) == 1
            },
            None => spec_walled_in(units@, pos, grid_w as int, grid_h as int),
        },
{
    broadcast use vstd::seq_lib::group_to_multiset_ensures;
    broadcast use vstd::multiset::group_multiset_axioms;

    let mut dirs: Vec<(i32, i32)> = Vec::new();
    dirs.push((1, 0));
    dirs.push((-1, 0));
    dirs.push((0, 1));
    dirs.push((0, -1));
    let ghost base = dirs@;
    shuffle_dirs(&mut dirs);
    proof {
        // The shuffle kept every one of the four directions.
        assert forall|d: (i32, i32)| spec_unit_dir(d) implies dirs@.contains(d) by {
            assert(base[0] == (1i32, 0i32) && base[1] == (-1i32, 0i32)
                && base[2] == (0i32, 1i32) && base[3] == (0i32, -1i32));
            assert(base.contains(d));
            assert(base.to_multiset().count(d) > 0);
            assert(dirs@.to_multiset().count(d) > 0);
        }
        assert forall|m: int| 0 <= m < dirs@.len() implies spec_unit_dir(
            #[trigger] dirs@[m],
        ) by {
            assert(dirs@.to_multiset().count(dirs@[m]) > 0);
            assert(base.to_multiset().count(dirs@[m]) > 0);
            assert(base.contains(dirs@[m]));
            let w = choose|w: int| 0 <= w < base.len() && base[w] == dirs@[m];
            assert(spec_unit_dir(base[w]));
        }
    }
    let r = choose_free_neighbor(units, pos, &dirs, grid_w, grid_h);
    proof {
        if r is None {
            assert forall|d: (i32, i32)| spec_unit_dir(d) implies match spec_step_tile(
                pos, d, grid_w as int, grid_h as int,
            ) {
                Some(c) => spec_occupied(units@, c),
                None => true,
            } by {
                assert(dirs@.contains(d));
                let m = choose|m: int| 0 <= m < dirs@.len() && dirs@[m] == d;
                assert(match spec_step_tile(pos, dirs@[m], grid_w as int, grid_h as int) {
                    Some(c) => spec_occupied(units@, c),
                    None => true,
                });
            }
        }
    }
    r
}

/// One machine turn over every unit: each enemy (second component true)
/// tries the four neighbouring tiles in a random order and takes the first
/// one that is on the grid and free; an enemy walled in stays put.  Player
/// units never move, no unit leaves the grid, and no two units ever end on
/// the same tile.
pub fn ai_turn_system(units: &mut Vec<(TilePos, bool)>, grid_w: u32, grid_h: u32)
    requires
        1 <= grid_w <= 1_000_000,
        1 <= grid_h <= 1_000_000,
        spec_on_grid(old(units)@, grid_w as int, grid_h as int),
        spec_distinct_positions(old(units)@),
    ensures
        final(units)@.len() == old(units)@.len(),
        forall|i: int|
            0 <= i < old(units)@.len()
                ==> (#[trigger] final(units)@[i]).1 == old(units)@[i].1,
        forall|i: int|
            0 <= i < old(units)@.len() && !old(units)@[i].1
                ==> #[trigger] final(units)@[i] == old(units)@[i],
        forall|i: int|
            0 <= i < old(units)@.len() && old(units)@[i].1
                ==> (#[trigger] final(units)@[i]).0 == old(units)@[i].0
                    || spec_manhattan(final(units)@[i].0, old(units)@[i].0) == 1,
        // An enemy only stays put when, at the moment of its turn, every
        // neighbouring tile was off the grid or taken; and one that moved
        // took a tile that was free at that moment.
        forall|i: int|
            0 <= i < old(units)@.len() && old(units)@[i].1
                && (#[trigger] final(units)@[i]).0 == old(units)@[i].0
                ==> spec_walled_in(
                    spec_mid_turn(old(units)@, final(units)@, i), old(units)@[i].0,
                    grid_w as int, grid_h as int,
                ),
        forall|i: int|
            0 <= i < old(units)@.len() && old(units)@[i].1
                && (#[trigger] final(units)@[i]).0 != old(units)@[i].0
                ==> !spec_occupied(
                    spec_mid_turn(old(units)@, final(units)@, i), final(units)@[i].0,
                ),
        spec_on_grid(final(units)@, grid_w as int, grid_h as int),
        spec_distinct_positions(final(units)@),
{
    let n: usize = units.len();
    let mut i: usize = 0;
    while i < n
        invariant
            n == units@.len() == old(units)@.len(),
            0 <= i <= n,
            1 <= grid_w <= 1_000_000,
            1 <= grid_h <= 1_000_000,
            forall|k: int|
                0 <= k < n ==> (#[trigger] units@[k]).1 == old(units)@[k].1,
            forall|k: int|
                0 <= k < n && !old(units)@[k].1
                    ==> #[trigger] units@[k] == old(units)@[k],
            forall|k: int|
                i <= k < n ==> #[trigger] units@[k] == old(units)@[k],
            forall|k: int|
                0 <= k < i && old(units)@[k].1
                    ==> (#[trigger] units@[k]).0 == old(units)@[k].0
                        || spec_manhattan(units@[k].0, old(units)@[k].0) == 1,
            forall|k: int|
                0 <= k < i && old(units)@[k].1 && (#[trigger] units@[k]).0 == old(units)@[k].0
                    ==> spec_walled_in(
                        spec_mid_turn(old(units)@, units@, k), old(units)@[k].0,
                        grid_w as int, grid_h as int,
                    ),
            forall|k: int|
                0 <= k < i && old(units)@[k].1 && (#[trigger] units@[k]).0 != old(units)@[k].0
                    ==> !spec_occupied(spec_mid_turn(old(units)@, units@, k), units@[k].0),
            spec_on_grid(units@, grid_w as int, grid_h as int),
            spec_distinct_positions(units@),
        decreases n - i,
    {
        if units[i].1 {
            let pos: TilePos = units[i].0;
            let moved: Option<TilePos> = ai_move(units, pos, grid_w, grid_h);
            let ghost before = units@;
            if let Some(cand) = moved {
                let is_enemy: bool = units[i].1;
                units.set(i, (cand, is_enemy));
                proof {
                    assert forall|a: int, b: int|
                        0 <= a < b < units@.len() implies (#[trigger] units@[a]).0 != (
                    #[trigger] units@[b]).0 by {
                        if a != i as int && b != i as int {
                            assert(units@[a] == before[a] && units@[b] == before[b]);
                        } else if a == i as int {
                            assert(units@[b] == before[b]);
                            assert(!spec_occupied(before, cand));
                            assert(before[b].0 != cand);
                        } else {
                            assert(units@[a] == before[a]);
                            assert(!spec_occupied(before, cand));
                            assert(before[a].0 != cand);
                        }
                    }
                    // The configuration this unit saw is exactly the list as
                    // it stood when it chose: the set only touched its own
                    // slot, and later units were still untouched.
                    assert(spec_mid_turn(old(units)@, units@, i as int) =~= before);
                    // A taken step lands off its own tile.
                    assert(cand != pos);
                    // Mid-turn views of earlier units are unchanged by this
                    // unit's move.
                    assert forall|k: int| 0 <= k < i as int implies spec_mid_turn(
                        old(units)@, units@, k,
                    ) =~= spec_mid_turn(old(units)@, before, k) by {
                    }
                }
            } else {
                proof {
                    assert(spec_mid_turn(old(units)@, units@, i as int) =~= before);
                }
            }
        }
        i = i + 1;
    }
}

} // verus!
