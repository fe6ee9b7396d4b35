//! Deferred menu transitions: a request is parked until the bullet board is
//! stable, so a mode change never lands while the arena is still animating.

use vstd::prelude::*;
use crate::board::BulletBoard;
use crate::menu::MenuState;

verus! {

/// At most one requested next mode.
pub struct MenuTransition {
    pub new_menu: Option<MenuState>,
}

impl MenuTransition {
    pub fn new() -> (r: MenuTransition)
        ensures
            r.new_menu is None,
    {
        MenuTransition { new_menu: None }
    }

    /// Request a mode; a request already parked is replaced.
    pub fn new_state(&mut self, state: MenuState)
        ensures
            final(self).new_menu == Some(state),
    {
        self.new_menu = Some(state);
    }

    /// Apply the parked request exactly when one is parked and the board is
    /// stable; otherwise nothing changes and nothing is returned.
    pub fn update_menu_state(&mut self, bullet_board: &BulletBoard) -> (r: Option<MenuState>)
        requires
            bullet_board.wf(),
        ensures
            old(self).new_menu is Some && bullet_board.spec_stable()
                ==> r == old(self).new_menu && final(self).new_menu is None,
            !(old(self).new_menu is Some && bullet_board.spec_stable())
                ==> r is None && final(self).new_menu == old(self).new_menu,
    {
        if self.new_menu.is_some() {
            if bullet_board.stable() {
                let r = self.new_menu;
                self.new_menu = None;
                return r;
            }
        }
        None
    }
}

} // verus!
