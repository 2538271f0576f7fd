//! Where food lies: the fixed place of the first piece, random draws for
//! the pieces after it, and the search for a free cell that makes sure a
//! draw is never repeated without end.

use vstd::prelude::*;
use rand::Rng;
use crate::board::{in_inset, Board, FOOD_MARGIN};
use crate::body::half;
use crate::position::Position;

verus! {

/// How often a place for food is drawn at random before the free cells are
/// searched in order.
pub const FOOD_DRAWS: usize = 64;

/// A piece of food: the cell it lies in.
#[derive(Clone, Copy, Debug, PartialEq, Eq, Structural)]
pub struct Food {
    pub position: Position,
}

/// Draws an integer from `low..high` with `rand`'s thread-local generator:
/// `rand::thread_rng()` and then `Rng::gen_range`. Nothing is proved of it;
/// what is trusted is that the value lies in the range, which is what
/// `gen_range` documents for a half-open range of integers. Which value it
/// is, is left open: two draws from one range may differ. `gen_range` panics
/// on an empty range, so `low < high` is demanded. `thread_rng` panics where
/// the system cannot seed the generator; no argument can rule that out.
#[verifier::external_body]
fn random_in_range(low: i32, high: i32) -> (r: i32)
    requires
        low < high,
    ensures
        low <= r < high,
{
    rand::thread_rng().gen_range(low..high)
}

/// Where the first piece of food of a game lies on a board of `board_size`
/// cells: at half height, five cells right of the middle column.
pub open spec fn first_food_cell(board_size: int) -> Position {
    Position { x: (half(board_size) + 5) as i32, y: half(board_size) as i32 }
}

/// Whether food may lie in `p` on a board of `size` cells: `p` is a cell of
/// the food region, or it is where the first piece of a game lies.
pub open spec fn is_food_cell(p: Position, size: int) -> bool {
    in_inset(p, size) || p == first_food_cell(size)
}

/// Whether `q` comes before `p` when cells are gone through row by row from
/// the bottom, each row from the left.
pub open spec fn scanned_before(q: Position, p: Position) -> bool {
    q.y < p.y || (q.y == p.y && q.x < p.x)
}

/// Whether `p` is the first cell, row by row from the bottom and each row
/// from the left, of the food region of a board of `size` cells that is not
/// in `occupied`.
pub open spec fn is_first_free_cell(p: Position, size: int, occupied: Seq<Position>) -> bool {
    &&& in_inset(p, size)
    &&& !occupied.contains(p)
    &&& forall|q: Position|
        #![trigger occupied.contains(q)]
        in_inset(q, size) && scanned_before(q, p) ==> occupied.contains(q)
}

/// Whether every cell of the food region of a board of `size` cells is in
/// `occupied`.
pub open spec fn food_region_is_full(size: int, occupied: Seq<Position>) -> bool {
    forall|q: Position| #![trigger occupied.contains(q)] in_inset(q, size) ==> occupied.contains(q)
}

/// The first piece of food of a game.
pub fn spawn_food(board_size: i32) -> (food: Food)
    ensures
        food.position == first_food_cell(board_size as int),
{
    Food { position: Position::new(board_size / 2 + 5, board_size / 2) }
}

/// Whether food may lie in `p` on a board of `board_size` cells.
pub fn check_food_cell(p: Position, board_size: i32) -> (ok: bool)
    ensures
        ok == is_food_cell(p, board_size as int),
{
    Board::new(board_size).in_food_region(p) || p == spawn_food(board_size).position
}

/// Whether a head at `head` has reached the food: it lies on the very cell
/// of the food.
pub fn eats_food(head: &Position, food: &Option<Food>) -> (eats: bool)
    ensures
        eats == (*food == Some(Food { position: *head })),
{
    match food {
        Some(f) => f.position == *head,
        None => false,
    }
}

/// A cell drawn at random from the food region of a board of `board_size`
/// cells. The region must hold a cell, so the board must be wider than twice
/// the margin.
pub fn food_position(board_size: i32) -> (p: Position)
    requires
        board_size > 2 * FOOD_MARGIN,
    ensures
        in_inset(p, board_size as int),
{
    let x = random_in_range(FOOD_MARGIN, board_size - FOOD_MARGIN);
    let y = random_in_range(FOOD_MARGIN, board_size - FOOD_MARGIN);
    Position { x, y }
}

/// Whether `p` is one of `cells`.
pub fn is_occupied(cells: &Vec<Position>, p: Position) -> (b: bool)
    ensures
        b == cells@.contains(p),
{
    let mut i: usize = 0;
    while i < cells.len()
        invariant
            i <= cells.len(),
            forall|k: int| 0 <= k < i ==> cells@[k] != p,
        decreases cells.len() - i,
    {
        if cells[i] == p {
            return true;
        }
        i = i + 1;
    }
    false
}

/// Takes the drawn cell `candidate` as food if no segment lies on it, and
/// refuses it otherwise.
pub fn accept_food(candidate: Position, segments: &Vec<Position>) -> (food: Option<Food>)
    ensures
        food == if segments@.contains(candidate) {
            None
        } else {
            Some(Food { position: candidate })
        },
{
    if is_occupied(segments, candidate) {
        None
    } else {
        Some(Food { position: candidate })
    }
}

/// The first free cell of the food region of a board of `board_size` cells,
/// row by row from the bottom and each row from the left, or `None` where
/// the snake covers the whole region.
pub fn first_free_cell(board_size: i32, segments: &Vec<Position>) -> (found: Option<Position>)
    ensures
        match found {
            Some(p) => is_first_free_cell(p, board_size as int, segments@),
            None => food_region_is_full(board_size as int, segments@),
        },
{
    if board_size <= 2 * FOOD_MARGIN {
        return None;
    }
    let end = board_size - FOOD_MARGIN;
    let mut y: i32 = FOOD_MARGIN;
    while y < end
        invariant
            end == board_size - FOOD_MARGIN,
            FOOD_MARGIN <= y <= end,
            forall|q: Position|
                #![trigger segments@.contains(q)]
                in_inset(q, board_size as int) && q.y < y ==> segments@.contains(q),
        decreases end - y,
    {
        let mut x: i32 = FOOD_MARGIN;
        while x < end
            invariant
                end == board_size - FOOD_MARGIN,
                FOOD_MARGIN <= y < end,
                FOOD_MARGIN <= x <= end,
                forall|q: Position|
                    #![trigger segments@.contains(q)]
                    in_inset(q, board_size as int) && q.y < y ==> segments@.contains(q),
                forall|q: Position|
                    #![trigger segments@.contains(q)]
                    in_inset(q, board_size as int) && q.y == y && q.x < x ==> segments@.contains(q),
            decreases end - x,
        {
            let p = Position { x, y };
            if !is_occupied(segments, p) {
                return Some(p);
            }
            x = x + 1;
        }
        y = y + 1;
    }
    None
}

/// A place for the next piece of food on a board of `board_size` cells on
/// which the snake lies in `segments`. A cell of the food region is drawn
/// at random and drawn again while a segment lies on it. After `FOOD_DRAWS`
/// draws the first free cell of the region is taken instead. `None` means
/// that the snake covers the whole region, so no food can be placed.
pub fn respawn_food(board_size: i32, segments: &Vec<Position>) -> (food: Option<Food>)
    ensures
        match food {
            Some(f) => in_inset(f.position, board_size as int) && !segments@.contains(f.position),
            None => food_region_is_full(board_size as int, segments@),
        },
{
    if board_size <= 2 * FOOD_MARGIN {
        return None;
    }
    let mut draws: usize = 0;
    while draws < FOOD_DRAWS
        invariant
            draws <= FOOD_DRAWS,
            board_size > 2 * FOOD_MARGIN,
        decreases FOOD_DRAWS - draws,
    {
        let candidate = food_position(board_size);
        match accept_food(candidate, segments) {
            Some(f) => {
                return Some(f);
            },
            None => {},
        }
        draws = draws + 1;
    }
    match first_free_cell(board_size, segments) {
        Some(p) => Some(Food { position: p }),
        None => None,
    }
}

} // verus!
