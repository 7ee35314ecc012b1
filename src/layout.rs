//! Where things are drawn: the grid lines and the square of each block.
use vstd::prelude::*;

use crate::structs::{Block, Position, WorldLimits, HALF_SQUARE, SQUARE_SIZE, WINDOW_HEIGHT, WINDOW_WIDTH};

verus! {

/// The `y` of each horizontal grid line: one at the top of every cell row
/// of the window.
pub fn grid_row_ys() -> (ys: Vec<i64>)
    ensures
        ys@.len() == WINDOW_HEIGHT / SQUARE_SIZE,
        forall|i: int| 0 <= i < ys@.len() ==> #[trigger] ys@[i] == i * SQUARE_SIZE,
{
    let count: i64 = WINDOW_HEIGHT / SQUARE_SIZE;
    let mut ys: Vec<i64> = Vec::new();
    let mut n: i64 = 0;
    while n < count
        invariant
            count == WINDOW_HEIGHT / SQUARE_SIZE,
            0 <= n <= count,
            ys@.len() == n,
            forall|i: int| 0 <= i < ys@.len() ==> #[trigger] ys@[i] == i * SQUARE_SIZE,
        decreases count - n,
    {
        ys.push(n * SQUARE_SIZE);
        n = n + 1;
    }
    ys
}

/// The `x` of each vertical grid line: from the left wall, one cell apart,
/// one fewer than the cells that fit across the window.
pub fn grid_column_xs(limits: &WorldLimits) -> (xs: Vec<i64>)
    requires
        limits.bounded(),
    ensures
        xs@.len() == WINDOW_WIDTH / SQUARE_SIZE - 1,
        forall|i: int| 0 <= i < xs@.len() ==> #[trigger] xs@[i] == limits.left + i * SQUARE_SIZE,
{
    let count: i64 = WINDOW_WIDTH / SQUARE_SIZE - 1;
    let mut xs: Vec<i64> = Vec::new();
    let mut n: i64 = 0;
    while n < count
        invariant
            count == WINDOW_WIDTH / SQUARE_SIZE - 1,
            limits.bounded(),
            0 <= n <= count,
            xs@.len() == n,
            forall|i: int| 0 <= i < xs@.len() ==> #[trigger] xs@[i] == limits.left + i * SQUARE_SIZE,
        decreases count - n,
    {
        xs.push(limits.left + n * SQUARE_SIZE);
        n = n + 1;
    }
    xs
}

/// The top-left corner of the square drawn for `b`: half a cell left of
/// its `x`.
pub fn draw_origin(b: &Block) -> (p: Position)
    requires
        b.in_range(),
    ensures
        p.x == b.x() - HALF_SQUARE,
        p.y == b.y(),
{
    Position { x: b.position.x - HALF_SQUARE, y: b.position.y }
}

} // verus!
