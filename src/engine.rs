//! The update rule: one tick of gravity, locking, game-over detection and
//! sideways movement.
use vstd::prelude::*;

use crate::structs::{
    block_at, column_collision, footprints_overlap, overlaps, position_taken, same_column,
    shifted, spawn_block, spawn_of, Block, Position, TickInput, World, WorldLimits, WorldState,
    FAST_STEP_DOWN, HALF_SQUARE, SQUARE_SIZE, STEP_DOWN, STEP_HOR, WINDOW_HEIGHT,
};

verus! {

/// The active block has reached the floor or rests on a block of its column.
pub open spec fn locks(s: WorldState) -> bool {
    s.current.y() + SQUARE_SIZE > WINDOW_HEIGHT || column_collision(s.settled, s.current)
}

/// How far the active block falls in a tick without a lock.
pub open spec fn fall_distance(input: TickInput) -> int {
    if input.down_held {
        FAST_STEP_DOWN as int
    } else {
        STEP_DOWN as int
    }
}

/// First phase of a tick: lock (and report whether the spawn point is
/// taken), or fall.
pub open spec fn vertical_step(s: WorldState, limits: WorldLimits, input: TickInput) -> (
    WorldState,
    bool,
) {
    if locks(s) {
        let settled = s.settled.push(s.current);
        let fresh = spawn_of(limits);
        (WorldState { current: fresh, settled }, position_taken(settled, fresh))
    } else {
        (
            WorldState {
                current: block_at(s.current.x(), s.current.y() + fall_distance(input)),
                settled: s.settled,
            },
            false,
        )
    }
}

/// A move left is allowed: the wall is not passed and no settled block
/// of the column to the left overlaps the moved block.
pub open spec fn can_move_left(s: WorldState, limits: WorldLimits) -> bool {
    let dest = shifted(s.current, -STEP_HOR);
    limits.left < dest.x() - HALF_SQUARE && !column_collision(s.settled, dest)
}

/// A move right is allowed: the wall is not passed and no settled block
/// of the column to the right overlaps the moved block.
pub open spec fn can_move_right(s: WorldState, limits: WorldLimits) -> bool {
    let dest = shifted(s.current, STEP_HOR as int);
    dest.x() + HALF_SQUARE < limits.right && !column_collision(s.settled, dest)
}

/// Second phase of a tick: at most one sideways move, left tried first.
pub open spec fn lateral_step(s: WorldState, limits: WorldLimits, input: TickInput) -> WorldState {
    if input.left_pressed && can_move_left(s, limits) {
        WorldState { current: shifted(s.current, -STEP_HOR), settled: s.settled }
    } else if input.right_pressed && can_move_right(s, limits) {
        WorldState { current: shifted(s.current, STEP_HOR as int), settled: s.settled }
    } else {
        s
    }
}

/// One whole tick: the world after it, and whether the game is over.
pub open spec fn next_state(s: WorldState, limits: WorldLimits, input: TickInput) -> (
    WorldState,
    bool,
) {
    let (v, terminal) = vertical_step(s, limits, input);
    (lateral_step(v, limits, input), terminal)
}

/// Whether a settled block shares `probe`'s column and overlaps it.
fn column_blocked(blocks: &Vec<Block>, probe: &Block) -> (r: bool)
    requires
        probe.near_range(),
    ensures
        r == column_collision(blocks@, *probe),
{
    let mut i: usize = 0;
    while i < blocks.len()
        invariant
            i <= blocks.len(),
            probe.near_range(),
            forall|j: int|
                0 <= j < i ==> !(same_column(#[trigger] blocks@[j], *probe) && footprints_overlap(
                    blocks@[j],
                    *probe,
                )),
        decreases blocks.len() - i,
    {
        let b = &blocks[i];
        if b.position.x == probe.position.x && overlaps(probe, b) {
            return true;
        }
        i = i + 1;
    }
    false
}

/// The active block shares its column with a settled block that it overlaps.
pub fn collide_with_other_block(world: &World) -> (r: bool)
    requires
        world.current_block.in_range(),
    ensures
        r == column_collision(world.blocks@, world.current_block),
{
    column_blocked(&world.blocks, &world.current_block)
}

/// A settled block stands exactly where the active block is.
pub fn check_new_block_position_is_filled(world: &World) -> (r: bool)
    ensures
        r == position_taken(world.blocks@, world.current_block),
{
    let mut i: usize = 0;
    while i < world.blocks.len()
        invariant
            i <= world.blocks.len(),
            forall|j: int|
                0 <= j < i ==> (#[trigger] world.blocks@[j]).position
                    != world.current_block.position,
        decreases world.blocks.len() - i,
    {
        let b = &world.blocks[i];
        if b.position.x == world.current_block.position.x && b.position.y
            == world.current_block.position.y {
            return true;
        }
        i = i + 1;
    }
    false
}

/// Moving the active block one cell left would overlap a settled block
/// of that column.
pub fn left_block_detected(world: &World) -> (r: bool)
    requires
        world.current_block.in_range(),
    ensures
        r == column_collision(world.blocks@, shifted(world.current_block, -STEP_HOR)),
{
    let cur = world.current_block.position;
    let dest = Block { position: Position { x: cur.x - STEP_HOR, y: cur.y } };
    column_blocked(&world.blocks, &dest)
}

/// Moving the active block one cell right would overlap a settled block
/// of that column.
pub fn right_block_detected(world: &World) -> (r: bool)
    requires
        world.current_block.in_range(),
    ensures
        r == column_collision(world.blocks@, shifted(world.current_block, STEP_HOR as int)),
{
    let cur = world.current_block.position;
    let dest = Block { position: Position { x: cur.x + STEP_HOR, y: cur.y } };
    column_blocked(&world.blocks, &dest)
}

/// Advances the world by one tick and returns whether the game is over:
/// a lock happened and the fresh block's position is already taken.
pub fn update_world(world: &mut World, world_limits: &WorldLimits, input: &TickInput) -> (terminal:
    bool)
    requires
        world_limits.bounded(),
        old(world).current_block.in_range(),
    ensures
        (final(world)@, terminal) == next_state(old(world)@, *world_limits, *input),
        final(world).current_block.in_range(),
{
    let mut terminal = false;
    if world.current_block.position.y + SQUARE_SIZE > WINDOW_HEIGHT || collide_with_other_block(
        world,
    ) {
        world.blocks.push(world.current_block);
        world.current_block = spawn_block(world_limits);
        terminal = check_new_block_position_is_filled(world);
    } else if input.down_held {
        world.current_block.position.y = world.current_block.position.y + FAST_STEP_DOWN;
    } else {
        world.current_block.position.y = world.current_block.position.y + STEP_DOWN;
    }
    let x = world.current_block.position.x;
    if input.left_pressed && x - STEP_HOR - HALF_SQUARE > world_limits.left
        && !left_block_detected(world) {
        world.current_block.position.x = x - STEP_HOR;
    } else if input.right_pressed && x + STEP_HOR + HALF_SQUARE < world_limits.right
        && !right_block_detected(world) {
        world.current_block.position.x = x + STEP_HOR;
    }
    terminal
}

} // verus!
