//! A falling-block game world on an integer pixel grid: one active block
//! falls, is steered left and right, and locks on the floor or on a block
//! below it. Rendering and input polling are left to the caller, which
//! hands each tick its input and draws what the world holds.
use vstd::prelude::*;

pub mod engine;
pub mod game;
pub mod laws;
pub mod layout;
pub mod structs;

pub use engine::{
    check_new_block_position_is_filled, collide_with_other_block, left_block_detected,
    right_block_detected, update_world,
};
pub use game::{advance_frame, restart_game};
pub use layout::{draw_origin, grid_column_xs, grid_row_ys};
pub use structs::{
    spawn_block, Block, GameState, Position, TickInput, World, WorldLimits, WorldState,
};

verus! {

} // verus!
