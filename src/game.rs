//! The frame loop's decisions: when the world advances, and what the
//! pause, game-over and restart controls do.
use vstd::prelude::*;

use crate::engine::{next_state, update_world};
use crate::structs::{
    spawn_block, spawn_of, Block, GameState, TickInput, World, WorldLimits, COORD_LIMIT,
    HALF_SQUARE, SIDE_COLUMNS, SQUARE_SIZE,
};

verus! {

impl GameState {
    /// A game that runs: not paused, not over, no score.
    pub fn new() -> (g: GameState)
        ensures
            g.score == 0,
            !g.game_over,
            !g.paused,
    {
        GameState { score: 0, game_over: false, paused: false }
    }

    /// Whether the world advances this frame: neither paused nor over.
    pub fn is_running(&self) -> (r: bool)
        ensures
            r == !(self.paused || self.game_over),
    {
        !(self.paused || self.game_over)
    }

    /// The pause control: flips `paused` and leaves the rest.
    pub fn toggle_pause(&mut self)
        ensures
            *final(self) == (GameState { paused: !old(self).paused, ..*old(self) }),
    {
        self.paused = !self.paused;
    }

    /// The game-over control: flips `game_over` and leaves the rest.
    pub fn toggle_game_over(&mut self)
        ensures
            *final(self) == (GameState { game_over: !old(self).game_over, ..*old(self) }),
    {
        self.game_over = !self.game_over;
    }
}

impl WorldLimits {
    /// Walls for a window `window_width` pixels wide: the centre column
    /// and `SIDE_COLUMNS` columns on each side, centred in the window.
    pub fn for_window(window_width: i64) -> (l: WorldLimits)
        requires
            0 <= window_width <= COORD_LIMIT,
        ensures
            l.left == window_width / 2 - HALF_SQUARE - SIDE_COLUMNS * SQUARE_SIZE,
            l.right == window_width / 2 + HALF_SQUARE + SIDE_COLUMNS * SQUARE_SIZE,
            l.center_x() == window_width / 2,
            l.wf(),
    {
        let center = window_width / 2;
        WorldLimits {
            left: center - HALF_SQUARE - SIDE_COLUMNS * SQUARE_SIZE,
            right: center + HALF_SQUARE + SIDE_COLUMNS * SQUARE_SIZE,
        }
    }
}

impl World {
    /// A fresh world: the spawned block and no settled blocks.
    pub fn new(limits: &WorldLimits) -> (w: World)
        requires
            limits.bounded(),
        ensures
            w@.current == spawn_of(*limits),
            w@.settled == Seq::<Block>::empty(),
            w.current_block.in_range(),
    {
        World { current_block: spawn_block(limits), blocks: Vec::new() }
    }

    /// Clears the settled blocks and puts the active block back at the
    /// spawn point.
    pub fn restart(&mut self, limits: &WorldLimits)
        requires
            limits.bounded(),
        ensures
            final(self)@.current == spawn_of(*limits),
            final(self)@.settled == Seq::<Block>::empty(),
            final(self).current_block.in_range(),
    {
        self.blocks = Vec::new();
        self.current_block = spawn_block(limits);
    }
}

/// The restart control: a fresh world and a game that is no longer over.
pub fn restart_game(world: &mut World, state: &mut GameState, limits: &WorldLimits)
    requires
        limits.bounded(),
    ensures
        final(world)@.current == spawn_of(*limits),
        final(world)@.settled == Seq::<Block>::empty(),
        final(world).current_block.in_range(),
        *final(state) == (GameState { game_over: false, ..*old(state) }),
{
    state.game_over = false;
    world.restart(limits);
}

/// One frame of the game: while the game runs the world advances one
/// tick and the tick's terminal flag becomes `game_over`; while it is
/// paused or over nothing changes.
pub fn advance_frame(
    world: &mut World,
    state: &mut GameState,
    limits: &WorldLimits,
    input: &TickInput,
)
    requires
        limits.bounded(),
        old(world).current_block.in_range(),
    ensures
        old(state).paused || old(state).game_over ==> {
            &&& final(world)@ == old(world)@
            &&& *final(state) == *old(state)
        },
        !(old(state).paused || old(state).game_over) ==> {
            &&& (final(world)@, final(state).game_over) == next_state(old(world)@, *limits, *input)
            &&& final(state).paused == old(state).paused
            &&& final(state).score == old(state).score
        },
        final(world).current_block.in_range(),
{
    if state.is_running() {
        state.game_over = update_world(world, limits, input);
    }
}

} // verus!
