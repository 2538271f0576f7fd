//! The square board: its size in cells, the region in which food may lie,
//! and the mapping from a cell to the pixel at its centre.

use vstd::prelude::*;
use crate::position::Position;

verus! {

/// Edge length of one tile, in pixels.
pub const TILE_SIZE: i32 = 30;

/// Food keeps this many cells away from each edge of the board.
pub const FOOD_MARGIN: i32 = 5;

/// The smallest board on which a game can be set up.
pub const MIN_BOARD_SIZE: i32 = 20;

/// A square board of `size` by `size` cells.
#[derive(Clone, Copy, Debug, PartialEq, Eq, Structural)]
pub struct Board {
    pub size: i32,
}

/// Whether `p` is a cell of a board of `size` by `size` cells.
pub open spec fn on_board(p: Position, size: int) -> bool {
    0 <= p.x < size && 0 <= p.y < size
}

/// Whether `p` lies in the region of a board of `size` by `size` cells where
/// food may be placed: at least `FOOD_MARGIN` cells away from every edge.
pub open spec fn in_inset(p: Position, size: int) -> bool {
    FOOD_MARGIN <= p.x < size - FOOD_MARGIN && FOOD_MARGIN <= p.y < size - FOOD_MARGIN
}

/// Twice the pixel coordinate of the centre of cell `cell` along one axis,
/// for a board of `size` cells that is centred on the origin. Twice, so that
/// the value is an integer whatever the edge length of a tile.
pub open spec fn twice_cell_centre(size: int, cell: int) -> int {
    TILE_SIZE * (2 * cell + 1 - size)
}

impl Board {
    pub fn new(size: i32) -> (b: Self)
        ensures
            b.size == size,
    {
        Self { size }
    }

    /// Edge length of the whole board, in pixels.
    pub fn physical_size(&self) -> (px: i64)
        ensures
            px == self.size * TILE_SIZE,
    {
        (self.size as i64) * (TILE_SIZE as i64)
    }

    /// Pixel coordinate, along one axis, of the centre of the cell with
    /// coordinate `pos`, for a board that is centred on the origin. The cell
    /// is not held to the board: the mapping goes on beyond the edges.
    pub fn position_translate(&self, pos: i32) -> (px: i64)
        ensures
            2 * px == twice_cell_centre(self.size as int, pos as int),
            px == pos * TILE_SIZE - self.size * (TILE_SIZE / 2) + TILE_SIZE / 2,
    {
        let half_board: i64 = self.physical_size() / 2;
        let offset: i64 = -half_board + (TILE_SIZE as i64) / 2;
        offset + (pos as i64) * (TILE_SIZE as i64)
    }

    /// Whether `p` is a cell of this board.
    pub fn contains(&self, p: Position) -> (b: bool)
        ensures
            b == on_board(p, self.size as int),
    {
        0 <= p.x && p.x < self.size && 0 <= p.y && p.y < self.size
    }

    /// Whether `p` lies where food may be placed on this board.
    pub fn in_food_region(&self, p: Position) -> (b: bool)
        ensures
            b == in_inset(p, self.size as int),
    {
        FOOD_MARGIN <= p.x && (p.x as i64) < (self.size as i64) - (FOOD_MARGIN as i64)
            && FOOD_MARGIN <= p.y && (p.y as i64) < (self.size as i64) - (FOOD_MARGIN as i64)
    }
}

/// The centres of neighbouring cells are one tile apart, and the cells of a
/// board lie evenly about the origin: the first and the last cell of a row
/// are equally far from it, on opposite sides.
pub proof fn lemma_cell_centres(size: int, cell: int)
    ensures
        twice_cell_centre(size, cell + 1) - twice_cell_centre(size, cell) == 2 * TILE_SIZE,
        twice_cell_centre(size, 0) == -twice_cell_centre(size, size - 1),
{
    assert(TILE_SIZE * (2 * (cell + 1) + 1 - size) - TILE_SIZE * (2 * cell + 1 - size) == 2
        * TILE_SIZE) by (nonlinear_arith);
    assert(TILE_SIZE * (2 * 0 + 1 - size) == -(TILE_SIZE * (2 * (size - 1) + 1 - size)))
        by (nonlinear_arith);
}

} // verus!
