//! Battle-menu modes and the four-way option selector.
//!
//! Exactly one `MenuState` is active at a time; requests to change it go
//! through `MenuTransition` (see `menu_transition`), which waits for the
//! bullet board to settle before applying them.

use vstd::prelude::*;

verus! {

/// The mutually exclusive modes of the battle scene.
#[allow(non_camel_case_types)]
#[derive(Clone, Copy, PartialEq, Eq, Structural, Debug)]
pub enum MenuState {
    Selection,
    Decision,
    Text,
    Fight,
    Dodging,
    EnemyDeath,
    Restart,
    ERROR,
}

/// The four buttons of the selection row.
#[derive(Clone, Copy, PartialEq, Eq, Structural, Debug)]
pub enum MenuOption {
    Fight,
    Act,
    Item,
    Mercy,
}

impl MenuState {
    /// The mode a confirmed button leads to: Fight opens the fight bar,
    /// everything else opens a decision menu.
    pub fn from_option(o: MenuOption) -> (r: MenuState)
        ensures
            o is Fight ==> r is Fight,
            o is Act ==> r is Decision,
            o is Item ==> r is Decision,
            o is Mercy ==> r is Decision,
    {
        match o {
            MenuOption::Act => MenuState::Decision,
            MenuOption::Fight => MenuState::Fight,
            MenuOption::Item => MenuState::Decision,
            MenuOption::Mercy => MenuState::Decision,
        }
    }
}

/// The selection row: a non-empty list of options and the index of the
/// highlighted one.
pub struct MenuSelect {
    pub selection: i32,
    pub selections: Vec<MenuOption>,
    pub button_width: i32,
    pub button_height: i32,
    pub spacing: i32,
}

impl MenuSelect {
    /// At least one option, and the cursor points at one of them.
    pub open spec fn wf(self) -> bool {
        &&& 1 <= self.selections@.len() <= 1_000_000
        &&& 0 <= self.selection < self.selections@.len()
    }

    /// Move the cursor by `dir`, wrapping at both ends.
    pub fn cycle(&mut self, dir: i32)
        requires
            old(self).wf(),
            -1_000_000 <= dir <= 1_000_000,
        ensures
            final(self).wf(),
            final(self).selection
                == (old(self).selection + dir) % (old(self).selections@.len() as int),
            final(self).selections == old(self).selections,
            final(self).button_width == old(self).button_width,
            final(self).button_height == old(self).button_height,
            final(self).spacing == old(self).spacing,
    {
        let len: i64 = self.selections.len() as i64;
        // Shift into non-negative territory by a multiple of the length, so
        // the machine remainder agrees with the mathematical one.
        let t: i64 = self.selection as i64 + dir as i64 + 1_000_000 * len;
        proof {
            assert(1_000_000 * len + self.selection + dir >= 0) by (nonlinear_arith)
                requires
                    len >= 1,
                    self.selection + dir >= -1_000_000,
            ;
            assert(1_000_000 * len <= 1_000_000_000_000) by (nonlinear_arith)
                requires
                    len <= 1_000_000,
            ;
            vstd::arithmetic::div_mod::lemma_mod_multiples_vanish(
                1_000_000, self.selection + dir, len as int,
            );
        }
        let s: i64 = t % len;
        self.selection = s as i32;
    }

    /// The highlighted option.
    pub fn get_option(&self) -> (r: MenuOption)
        requires
            self.wf(),
        ensures
            r == self.selections@[self.selection as int],
    {
        self.selections[self.selection as usize]
    }
}

/// Horizontal centers of the selection buttons: the first sits flush with
/// the board's left border, and each later one follows its predecessor at
/// one button width plus that slot's gap.
pub fn button_positions(
    menu: &MenuSelect,
    board_width: i32,
    board_border: i32,
    gaps: &Vec<i32>,
) -> (r: Vec<i32>)
    requires
        menu.wf(),
        0 <= board_width <= 1_000_000,
        0 <= board_border <= 1_000_000,
        0 <= menu.button_width <= 1_000_000,
        gaps@.len() >= menu.selections@.len(),
        forall|k: int| 0 <= k < gaps@.len() ==> 0 <= #[trigger] gaps@[k] <= 1_000_000,
        menu.selections@.len() <= 100,
    ensures
        r@.len() == menu.selections@.len(),
        r@.len() > 0 ==> r@[0] == -(board_width / 2) - board_border + menu.button_width / 2,
        forall|k: int|
            0 <= k < r@.len() - 1
                ==> #[trigger] r@[k + 1] == r@[k] + gaps@[k] + menu.button_width,
{
    let mut r: Vec<i32> = Vec::new();
    let mut current_pos: i32 = -(board_width / 2) - board_border + menu.button_width / 2;
    let mut i: usize = 0;
    let n: usize = menu.selections.len();
    while i < n
        invariant
            n == menu.selections@.len() <= 100,
            gaps@.len() >= n,
            0 <= menu.button_width <= 1_000_000,
            forall|k: int| 0 <= k < gaps@.len() ==> 0 <= #[trigger] gaps@[k] <= 1_000_000,
            0 <= i <= n,
            r@.len() == i,
            -2_000_000 <= current_pos <= 500_000 + 2_000_000 * (i as int),
            i == 0 ==> current_pos == -(board_width / 2) - board_border + menu.button_width / 2,
            i > 0 ==> current_pos == r@[i - 1] + gaps@[i - 1] + menu.button_width,
            r@.len() > 0 ==> r@[0] == -(board_width / 2) - board_border + menu.button_width / 2,
            forall|k: int|
                0 <= k < r@.len() - 1
                    ==> #[trigger] r@[k + 1] == r@[k] + gaps@[k] + menu.button_width,
        decreases n - i,
    {
        r.push(current_pos);
        current_pos = current_pos + gaps[i] + menu.button_width;
        i = i + 1;
    }
    r
}

} // verus!
