//! The world model: positions, blocks, walls, and the geometric predicates
//! that the update rule is built from.
use vstd::prelude::*;

verus! {

/// Side length of a block, in pixels.
pub const SQUARE_SIZE: i64 = 60;

/// Half of `SQUARE_SIZE`: blocks are drawn centred on their `x`.
pub const HALF_SQUARE: i64 = 30;

/// How far the active block falls in one tick.
pub const STEP_DOWN: i64 = 1;

/// How far the active block falls in one tick while "down" is held.
pub const FAST_STEP_DOWN: i64 = 5;

/// How far one left or right press moves the active block.
pub const STEP_HOR: i64 = 60;

/// Height of the playfield: the floor's `y`.
pub const WINDOW_HEIGHT: i64 = 600;

/// Width of the window that the playfield is centred in.
pub const WINDOW_WIDTH: i64 = 800;

/// Number of columns on each side of the centre column.
pub const SIDE_COLUMNS: i64 = 5;

/// Largest magnitude of a coordinate that the update rule accepts.
pub const COORD_LIMIT: i64 = 1_000_000_000_000;

/// A point of the playfield; `y` grows downward from the top.
#[derive(Clone, Copy, Debug, PartialEq, Eq, Structural)]
pub struct Position {
    pub x: i64,
    pub y: i64,
}

/// One square cell. Its footprint is the `SQUARE_SIZE` square whose
/// top edge is at `position.y` and which is centred on `position.x`.
#[derive(Clone, Copy, Debug, PartialEq, Eq, Structural)]
pub struct Block {
    pub position: Position,
}

/// The `x` of the playfield's two vertical walls.
#[derive(Clone, Copy, Debug, PartialEq, Eq, Structural)]
pub struct WorldLimits {
    pub left: i64,
    pub right: i64,
}

/// The input signals of one tick: press edges for left and right,
/// and whether "down" is held.
#[derive(Clone, Copy, Debug, PartialEq, Eq, Structural)]
pub struct TickInput {
    pub left_pressed: bool,
    pub right_pressed: bool,
    pub down_held: bool,
}

/// The falling block and the blocks that have settled, in the order
/// they locked.
#[derive(Debug)]
pub struct World {
    pub current_block: Block,
    pub blocks: Vec<Block>,
}

/// Flags that the frame loop keeps beside the world.
#[derive(Clone, Copy, Debug, PartialEq, Eq, Structural)]
pub struct GameState {
    pub score: i32,
    pub game_over: bool,
    pub paused: bool,
}

/// The mathematical content of a `World`.
pub struct WorldState {
    pub current: Block,
    pub settled: Seq<Block>,
}

impl View for World {
    type V = WorldState;

    open spec fn view(&self) -> WorldState {
        WorldState { current: self.current_block, settled: self.blocks@ }
    }
}

pub open spec fn coord_in_range(v: int) -> bool {
    -COORD_LIMIT <= v <= COORD_LIMIT
}

impl Block {
    pub open spec fn x(self) -> int {
        self.position.x as int
    }

    pub open spec fn y(self) -> int {
        self.position.y as int
    }

    /// Both coordinates are small enough for the update rule's arithmetic.
    pub open spec fn in_range(self) -> bool {
        coord_in_range(self.x()) && coord_in_range(self.y())
    }

    /// Both coordinates are within twice the range: enough for a probe
    /// one cell away from an in-range block.
    pub open spec fn near_range(self) -> bool {
        coord_in_range(self.x() / 2) && coord_in_range(self.y() / 2)
    }
}

impl WorldLimits {
    /// Walls in order, with coordinates in range.
    pub open spec fn bounded(self) -> bool {
        &&& coord_in_range(self.left as int)
        &&& coord_in_range(self.right as int)
        &&& self.left < self.right
    }

    /// The `x` halfway between the walls (rounded toward the left wall).
    pub open spec fn center_x(self) -> int {
        self.left + (self.right - self.left) / 2
    }

    /// A block whose centre is at `x` lies strictly between the walls.
    pub open spec fn inside(self, x: int) -> bool {
        self.left < x - HALF_SQUARE && x + HALF_SQUARE < self.right
    }

    /// `x` is a whole number of cells away from the centre column and
    /// lies strictly between the walls.
    pub open spec fn on_grid(self, x: int) -> bool {
        (x - self.center_x()) % (SQUARE_SIZE as int) == 0 && self.inside(x)
    }

    /// Bounded walls with room for the centre column between them.
    pub open spec fn wf(self) -> bool {
        self.bounded() && self.inside(self.center_x())
    }
}

/// The block placed at `(x, y)`.
pub open spec fn block_at(x: int, y: int) -> Block {
    Block { position: Position { x: x as i64, y: y as i64 } }
}

/// Two footprints intersect with positive area: touching edges do not count.
pub open spec fn footprints_overlap(a: Block, b: Block) -> bool {
    &&& a.x() < b.x() + SQUARE_SIZE
    &&& b.x() < a.x() + SQUARE_SIZE
    &&& a.y() < b.y() + SQUARE_SIZE
    &&& b.y() < a.y() + SQUARE_SIZE
}

/// Two blocks stand in the same column: their `x` are equal.
pub open spec fn same_column(a: Block, b: Block) -> bool {
    a.position.x == b.position.x
}

/// Some block of `settled` shares `probe`'s column and overlaps it.
pub open spec fn column_collision(settled: Seq<Block>, probe: Block) -> bool {
    exists|i: int|
        0 <= i < settled.len() && same_column(#[trigger] settled[i], probe)
            && footprints_overlap(settled[i], probe)
}

/// Some block of `settled` stands exactly at `b`'s position.
pub open spec fn position_taken(settled: Seq<Block>, b: Block) -> bool {
    exists|i: int| 0 <= i < settled.len() && (#[trigger] settled[i]).position == b.position
}

/// The fresh block: centred between the walls, at the top.
pub open spec fn spawn_of(limits: WorldLimits) -> Block {
    block_at(limits.center_x(), 0)
}

/// `b` moved sideways by `dx`.
pub open spec fn shifted(b: Block, dx: int) -> Block {
    block_at(b.x() + dx, b.y())
}

/// `probe` and `b` overlap, computed so that only `probe` has to be in range.
pub fn overlaps(probe: &Block, b: &Block) -> (r: bool)
    requires
        probe.near_range(),
    ensures
        r == footprints_overlap(*probe, *b),
{
    probe.position.x - SQUARE_SIZE < b.position.x && b.position.x < probe.position.x + SQUARE_SIZE
        && probe.position.y - SQUARE_SIZE < b.position.y && b.position.y < probe.position.y
        + SQUARE_SIZE
}

/// The fresh block that appears after a lock: centred, at the top.
pub fn spawn_block(limits: &WorldLimits) -> (b: Block)
    requires
        limits.bounded(),
    ensures
        b == spawn_of(*limits),
        b.in_range(),
{
    Block { position: Position { x: limits.left + (limits.right - limits.left) / 2, y: 0 } }
}

} // verus!
