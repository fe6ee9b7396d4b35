//! Core logic of a small turn-based battle sandbox: axis-aligned geometry,
//! clamped interpolation for the animated dodge arena ("bullet board"), the
//! battle-menu state machine with its deferred transitions, speed-ordered
//! turn rotation, damage resolution with invincibility frames, menu and
//! decision navigation, timed text reveal, sprite-sheet animation stepping,
//! and grid-tactics movement.
//!
//! All positions and sizes are integers counted in tenths of a world unit,
//! so one world unit is `UNIT` ticks.

pub mod actions;
pub mod animation;
pub mod attacks;
pub mod board;
pub mod death;
pub mod decisions;
pub mod dodging;
pub mod fight;
pub mod geom;
pub mod grid;
pub mod health;
pub mod interp;
pub mod menu;
pub mod menu_transition;
pub mod physics;
pub mod stats;
pub mod text;
pub mod turn_queue;

use vstd::prelude::*;

verus! {

/// Number of position ticks in one world unit.
pub const UNIT: i32 = 10;

/// Bound on every coordinate and size the library works with, in ticks.
/// Keeping values inside this range makes all the arithmetic below fit
/// comfortably in the machine integers that carry it.
pub const COORD_LIMIT: i32 = 1_000_000;

} // verus!
