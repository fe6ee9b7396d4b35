//! The decision menus behind the Act, Item and Mercy buttons: one or two
//! columns of entries, a cursor that wraps in both directions, and at most
//! one submenu level.

use vstd::prelude::*;
use crate::menu::MenuOption;

verus! {

/// One menu entry.  An entry either runs an action when confirmed or
/// opens its submenu.
pub struct Decision {
    pub display: String,
    /// Confirming this entry runs an action.
    pub has_system: bool,
    /// Pointing at this entry runs a preview action every frame.
    pub has_hover: bool,
    pub submenu: Option<DecisionMenu>,
}

/// Up to two columns of entries.
pub struct DecisionMenu {
    pub left_column: Vec<Decision>,
    pub right_column: Vec<Decision>,
}

/// The scene entities showing the entries, column by column.
pub struct DecisionEntities {
    pub left_column: Vec<u64>,
    pub right_column: Vec<u64>,
}

/// A menu is navigable when its left column has at least one entry.
pub open spec fn menu_wf(m: DecisionMenu) -> bool {
    &&& 1 <= m.left_column@.len() <= 1_000_000
    &&& m.right_column@.len() <= 1_000_000
}

impl Decision {
    pub fn new(display: String) -> (r: Decision)
        ensures
            r.display == display,
            r.has_system,
            !r.has_hover,
            r.submenu is None,
    {
        Decision { display, has_system: true, has_hover: false, submenu: None }
    }

    pub fn new_with_hover(display: String) -> (r: Decision)
        ensures
            r.display == display,
            r.has_system,
            r.has_hover,
            r.submenu is None,
    {
        Decision { display, has_system: true, has_hover: true, submenu: None }
    }

    pub fn new_with_menu(display: String, submenu: Option<DecisionMenu>) -> (r: Decision)
        ensures
            r.display == display,
            !r.has_system,
            !r.has_hover,
            r.submenu == submenu,
    {
        Decision { display, has_system: false, has_hover: false, submenu }
    }
}

/// What a frame of decision input asks the scene to do.
#[derive(Clone, Copy, PartialEq, Eq, Structural, Debug)]
pub enum DecisionAction {
    /// Run the selected entry's action.
    RunSystem,
    /// Open the selected entry's submenu.
    EnterSubmenu,
    /// Leave the submenu for the button's top menu.
    ExitSubmenu,
    /// Leave the decision menu for the selection row.
    ExitToSelection,
    /// Only the cursor moved.
    Navigate,
}

/// Offset of the first decision entry from the board center, in ticks.
pub const DECISION_TEXT_X: i32 = 631;

/// Vertical offset of the first decision row, in ticks.
pub const DECISION_TEXT_Y: i32 = -160;

/// Where the entries of a menu sit, relative to the board center: the
/// left column under `DECISION_TEXT_X`, the right one `spacing` further
/// over, each next row `increment` ticks lower.
pub fn decision_positions(
    increment: i32,
    spacing: i32,
    left_count: usize,
    right_count: usize,
) -> (r: Vec<(i32, i32)>)
    requires
        0 <= increment <= 1_000_000,
        0 <= spacing <= 1_000_000,
        left_count <= 1_000,
        right_count <= 1_000,
    ensures
        r@.len() == left_count + right_count,
        forall|i: int|
            0 <= i < left_count ==> #[trigger] r@[i]
                == ((DECISION_TEXT_X as int) as i32, (DECISION_TEXT_Y - increment * i) as i32),
        forall|i: int|
            0 <= i < right_count ==> #[trigger] r@[left_count + i] == (
                (DECISION_TEXT_X + spacing) as i32,
                (DECISION_TEXT_Y - increment * i) as i32,
            ),
{
    let mut r: Vec<(i32, i32)> = Vec::new();
    let mut i: usize = 0;
    while i < left_count
        invariant
            0 <= increment <= 1_000_000,
            left_count <= 1_000,
            0 <= i <= left_count,
            r@.len() == i,
            forall|k: int|
                0 <= k < i ==> #[trigger] r@[k] == (
                    (DECISION_TEXT_X as int) as i32,
                    (DECISION_TEXT_Y - increment * k) as i32,
                ),
        decreases left_count - i,
    {
        proof {
            assert(0 <= increment * i <= 1_000_000_000) by (nonlinear_arith)
                requires
                    0 <= increment <= 1_000_000,
                    0 <= i <= 1_000,
            ;
        }
        let y: i32 = DECISION_TEXT_Y - increment * (i as i32);
        r.push((DECISION_TEXT_X, y));
        i = i + 1;
    }
    let mut j: usize = 0;
    while j < right_count
        invariant
            0 <= increment <= 1_000_000,
            0 <= spacing <= 1_000_000,
            left_count <= 1_000,
            right_count <= 1_000,
            0 <= j <= right_count,
            r@.len() == left_count + j,
            forall|k: int|
                0 <= k < left_count ==> #[trigger] r@[k] == (
                    (DECISION_TEXT_X as int) as i32,
                    (DECISION_TEXT_Y - increment * k) as i32,
                ),
            forall|k: int|
                0 <= k < j ==> #[trigger] r@[left_count + k] == (
                    (DECISION_TEXT_X + spacing) as i32,
                    (DECISION_TEXT_Y - increment * k) as i32,
                ),
        decreases right_count - j,
    {
        proof {
            assert(0 <= increment * j <= 1_000_000_000) by (nonlinear_arith)
                requires
                    0 <= increment <= 1_000_000,
                    0 <= j <= 1_000,
            ;
        }
        let y: i32 = DECISION_TEXT_Y - increment * (j as i32);
        r.push((DECISION_TEXT_X + spacing, y));
        j = j + 1;
    }
    r
}

/// The decision state: the four top menus, the menu currently shown, and
/// the cursor on it.
pub struct Decisions {
    pub fight_menu: DecisionMenu,
    pub act_menu: DecisionMenu,
    pub item_menu: DecisionMenu,
    pub mercy_menu: DecisionMenu,
    pub decision_menu: Option<DecisionMenu>,
    pub menu_entities: DecisionEntities,
    /// The shown menu changed and its entries need respawning.
    pub switch_menu: bool,
    /// The shown menu is a submenu.
    pub submenu: bool,
    /// Cursor row.
    pub selection: i32,
    /// Cursor column: zero for the left column, one for the right.
    pub side: i32,
    /// Horizontal distance between the columns, in ticks.
    pub spacing: i32,
    /// Vertical distance between the rows, in ticks.
    pub increment: i32,
}

impl Decisions {
    /// The column the cursor is in.
    pub open spec fn spec_column(self) -> Seq<Decision>
        recommends
            self.decision_menu is Some,
    {
        if self.side == 1 {
            self.decision_menu->Some_0.right_column@
        } else {
            self.decision_menu->Some_0.left_column@
        }
    }

    pub open spec fn wf(self) -> bool {
        &&& match self.decision_menu {
            Some(m) => {
                &&& menu_wf(m)
                &&& (self.side == 0 || self.side == 1)
                &&& self.side == 1 ==> self.decision_menu->Some_0.right_column@.len() >= 1
                &&& 0 <= self.selection < self.spec_column().len()
            },
            None => true,
        }
    }

    /// The top menu behind each selection button.
    pub fn menu_for(&self, option: MenuOption) -> (r: &DecisionMenu)
        ensures
            option is Fight ==> r == &self.fight_menu,
            option is Act ==> r == &self.act_menu,
            option is Item ==> r == &self.item_menu,
            option is Mercy ==> r == &self.mercy_menu,
    {
        match option {
            MenuOption::Fight => &self.fight_menu,
            MenuOption::Act => &self.act_menu,
            MenuOption::Item => &self.item_menu,
            MenuOption::Mercy => &self.mercy_menu,
        }
    }

    /// Show a menu from its top-left entry; its entries are respawned.
    pub fn enter_menu(&mut self, menu: DecisionMenu)
        requires
            menu_wf(menu),
        ensures
            final(self).wf(),
            final(self).decision_menu == Some(menu),
            final(self).switch_menu,
            final(self).selection == 0,
            final(self).side == 0,
            final(self).menu_entities.left_column@.len() == 0,
            final(self).menu_entities.right_column@.len() == 0,
            final(self).submenu == old(self).submenu,
            final(self).fight_menu == old(self).fight_menu,
            final(self).act_menu == old(self).act_menu,
            final(self).item_menu == old(self).item_menu,
            final(self).mercy_menu == old(self).mercy_menu,
            final(self).spacing == old(self).spacing,
            final(self).increment == old(self).increment,
    {
        self.decision_menu = Some(menu);
        self.switch_menu = true;
        self.selection = 0;
        self.side = 0;
        self.menu_entities.left_column = Vec::new();
        self.menu_entities.right_column = Vec::new();
    }

    /// Move the cursor `i` rows down (negative: up), wrapping within the
    /// current column.
    pub fn vertical_cycle(&mut self, i: i32)
        requires
            old(self).decision_menu is Some,
            menu_wf(old(self).decision_menu->Some_0),
            old(self).side == 0 || old(self).side == 1,
            old(self).side == 1 ==> old(self).decision_menu->Some_0.right_column@.len() >= 1,
            0 <= old(self).selection <= 1_000_000,
            -1_000_000 <= i <= 1_000_000,
        ensures
            final(self).wf(),
            final(self).selection
                == (old(self).selection + i) % (old(self).spec_column().len() as int),
            final(self).decision_menu == old(self).decision_menu,
            final(self).side == old(self).side,
            final(self).submenu == old(self).submenu,
            final(self).switch_menu == old(self).switch_menu,
            final(self).fight_menu == old(self).fight_menu,
            final(self).act_menu == old(self).act_menu,
            final(self).item_menu == old(self).item_menu,
            final(self).mercy_menu == old(self).mercy_menu,
            final(self).menu_entities == old(self).menu_entities,
            final(self).spacing == old(self).spacing,
            final(self).increment == old(self).increment,
    {
        let column_size: i64 = match &self.decision_menu {
            Some(m) => {
                if self.side == 1 {
                    m.right_column.len() as i64
                } else {
                    m.left_column.len() as i64
                }
            },
            None => 1,
        };
        let t: i64 = self.selection as i64 + i as i64 + 1_000_000 * column_size;
        proof {
            assert(1_000_000 * column_size + self.selection + i >= 0) by (nonlinear_arith)
                requires
                    column_size >= 1,
                    self.selection + i >= -1_000_000,
            ;
            assert(1_000_000 * column_size <= 1_000_000_000_000) by (nonlinear_arith)
                requires
                    column_size <= 1_000_000,
            ;
            vstd::arithmetic::div_mod::lemma_mod_multiples_vanish(
                1_000_000, self.selection + i, column_size as int,
            );
        }
        let s: i64 = t % column_size;
        self.selection = s as i32;
    }

    /// Move the cursor `i` columns across.  With an empty right column the
    /// cursor stays left; either way the row is wrapped into the column it
    /// lands in.
    pub fn horizontal_cycle(&mut self, i: i32)
        requires
            old(self).wf(),
            old(self).decision_menu is Some,
            -1_000_000 <= i <= 1_000_000,
        ensures
            final(self).wf(),
            old(self).decision_menu->Some_0.right_column@.len() == 0 ==> final(self).side == 0,
            old(self).decision_menu->Some_0.right_column@.len() > 0
                ==> final(self).side == (old(self).side + i) % 2,
            final(self).selection
                == old(self).selection as int % (final(self).spec_column().len() as int),
            final(self).decision_menu == old(self).decision_menu,
            final(self).submenu == old(self).submenu,
            final(self).switch_menu == old(self).switch_menu,
            final(self).fight_menu == old(self).fight_menu,
            final(self).act_menu == old(self).act_menu,
            final(self).item_menu == old(self).item_menu,
            final(self).mercy_menu == old(self).mercy_menu,
            final(self).menu_entities == old(self).menu_entities,
            final(self).spacing == old(self).spacing,
            final(self).increment == old(self).increment,
    {
        let right_len: usize = match &self.decision_menu {
            Some(m) => m.right_column.len(),
            None => 0,
        };
        if right_len == 0 {
            self.side = 0;
        } else {
            let t: i64 = self.side as i64 + i as i64 + 2_000_000;
            proof {
                vstd::arithmetic::div_mod::lemma_mod_multiples_vanish(
                    1_000_000, self.side + i, 2,
                );
            }
            let s: i64 = t % 2;
            self.side = s as i32;
        }
        self.vertical_cycle(0);
    }

    /// The entry under the cursor.
    pub fn get_decision(&self) -> (r: &Decision)
        requires
            self.wf(),
            self.decision_menu is Some,
        ensures
            r == self.spec_column()[self.selection as int],
    {
        match &self.decision_menu {
            Some(m) => {
                if self.side == 1 {
                    &m.right_column[self.selection as usize]
                } else {
                    &m.left_column[self.selection as usize]
                }
            },
            None => unreached(),
        }
    }

    /// What one frame of input asks for: confirm runs the entry or opens
    /// its submenu, cancel backs out one level, anything else navigates.
    pub fn decide(&self, pressed_z: bool, pressed_x: bool) -> (r: DecisionAction)
        requires
            self.wf(),
            self.decision_menu is Some,
        ensures
            pressed_z && self.spec_column()[self.selection as int].submenu is Some
                ==> r is EnterSubmenu,
            pressed_z && self.spec_column()[self.selection as int].submenu is None
                ==> r is RunSystem,
            !pressed_z && pressed_x && self.submenu ==> r is ExitSubmenu,
            !pressed_z && pressed_x && !self.submenu ==> r is ExitToSelection,
            !pressed_z && !pressed_x ==> r is Navigate,
    {
        if pressed_z {
            if self.get_decision().submenu.is_some() {
                DecisionAction::EnterSubmenu
            } else {
                DecisionAction::RunSystem
            }
        } else if pressed_x {
            if self.submenu {
                DecisionAction::ExitSubmenu
            } else {
                DecisionAction::ExitToSelection
            }
        } else {
            DecisionAction::Navigate
        }
    }

    /// Apply a frame of arrow keys: rows first, then columns, as the scene
    /// does.  The cursor lands where a row cycle by the vertical delta
    /// followed by a column cycle by the horizontal one puts it.
    pub fn navigate(&mut self, up: bool, down: bool, left: bool, right: bool)
        requires
            old(self).wf(),
            old(self).decision_menu is Some,
        ensures
            final(self).wf(),
            final(self).decision_menu == old(self).decision_menu,
            final(self).submenu == old(self).submenu,
            final(self).switch_menu == old(self).switch_menu,
            final(self).menu_entities == old(self).menu_entities,
            ({
                let v = (if down { 1int } else { 0 }) - (if up { 1int } else { 0 });
                let h = (if right { 1int } else { 0 }) - (if left { 1int } else { 0 });
                let row = (old(self).selection + v) % (old(self).spec_column().len() as int);
                &&& final(self).side == if old(
                    self,
                ).decision_menu->Some_0.right_column@.len() == 0 {
                    0int
                } else {
                    (old(self).side + h) % 2
                }
                &&& final(self).selection == row % (final(self).spec_column().len() as int)
            }),
    {
        let mut vertical: i32 = 0;
        let mut horizontal: i32 = 0;
        if left {
            horizontal = horizontal - 1;
        }
        if right {
            horizontal = horizontal + 1;
        }
        if up {
            vertical = vertical - 1;
        }
        if down {
            vertical = vertical + 1;
        }
        self.vertical_cycle(vertical);
        self.horizontal_cycle(horizontal);
    }

    /// Open the submenu of the selected entry.
    pub fn enter_submenu(&mut self, sub: DecisionMenu)
        requires
            menu_wf(sub),
        ensures
            final(self).wf(),
            final(self).decision_menu == Some(sub),
            final(self).submenu,
            final(self).switch_menu,
            final(self).selection == 0 && final(self).side == 0,
    {
        self.enter_menu(sub);
        self.submenu = true;
    }

    /// Back out of the submenu into the given top menu.
    pub fn exit_submenu(&mut self, top: DecisionMenu)
        requires
            menu_wf(top),
        ensures
            final(self).wf(),
            final(self).decision_menu == Some(top),
            !final(self).submenu,
            final(self).switch_menu,
            final(self).selection == 0 && final(self).side == 0,
    {
        self.enter_menu(top);
        self.submenu = false;
    }
}

} // verus!
