//! The tiles of the sprite sheet and the classifier that picks one for each
//! segment of the snake.
//!
//! A body segment is classified by where its two neighbours lie: the
//! direction towards the neighbour nearer the head and the direction towards
//! the neighbour nearer the tail. The order of the two does not matter. The
//! head is classified by its direction of travel and the tail by the
//! direction in which it follows the segment before it.

use vstd::prelude::*;
use crate::body::{is_chain, is_unfolded};
use crate::position::{direction_between, lemma_direction_between_neighbours, Direction, Position};

verus! {

/// Number of tile columns in the sprite sheet.
pub const SHEET_COLUMNS: usize = 5;

/// Number of tile rows in the sprite sheet.
pub const SHEET_ROWS: usize = 4;

/// A tile of the sprite sheet.
#[derive(Clone, Copy, Debug, Hash, PartialEq, Eq, Structural)]
pub enum SpritePart {
    BodyTopRight,
    BodyHorizontal,
    BodyTopLeft,
    HeadUp,
    HeadRight,
    BodyBottomRight,
    BodyVertical,
    HeadLeft,
    HeadDown,
    BodyBottomLeft,
    TailUp,
    TailRight,
    Apple,
    TailLeft,
    TailDown,
}

impl SpritePart {
    /// Row of the tile in the sprite sheet, counted from the top.
    pub open spec fn sheet_row(self) -> nat {
        match self {
            SpritePart::BodyTopRight => 0,
            SpritePart::BodyHorizontal => 0,
            SpritePart::BodyTopLeft => 0,
            SpritePart::HeadUp => 0,
            SpritePart::HeadRight => 0,
            SpritePart::BodyBottomRight => 1,
            SpritePart::BodyVertical => 1,
            SpritePart::HeadLeft => 1,
            SpritePart::HeadDown => 1,
            SpritePart::BodyBottomLeft => 2,
            SpritePart::TailUp => 2,
            SpritePart::TailRight => 2,
            SpritePart::Apple => 3,
            SpritePart::TailLeft => 3,
            SpritePart::TailDown => 3,
        }
    }

    /// Column of the tile in the sprite sheet, counted from the left.
    pub open spec fn sheet_column(self) -> nat {
        match self {
            SpritePart::BodyTopRight => 0,
            SpritePart::BodyHorizontal => 1,
            SpritePart::BodyTopLeft => 2,
            SpritePart::HeadUp => 3,
            SpritePart::HeadRight => 4,
            SpritePart::BodyBottomRight => 0,
            SpritePart::BodyVertical => 2,
            SpritePart::HeadLeft => 3,
            SpritePart::HeadDown => 4,
            SpritePart::BodyBottomLeft => 2,
            SpritePart::TailUp => 3,
            SpritePart::TailRight => 4,
            SpritePart::Apple => 0,
            SpritePart::TailLeft => 3,
            SpritePart::TailDown => 4,
        }
    }

    /// Index of the tile in the sprite sheet, rows first.
    pub open spec fn spec_index(&self) -> usize {
        match self {
            SpritePart::BodyTopRight => 0,
            SpritePart::BodyHorizontal => 1,
            SpritePart::BodyTopLeft => 2,
            SpritePart::HeadUp => 3,
            SpritePart::HeadRight => 4,
            SpritePart::BodyBottomRight => 5,
            SpritePart::BodyVertical => 7,
            SpritePart::HeadLeft => 8,
            SpritePart::HeadDown => 9,
            SpritePart::BodyBottomLeft => 12,
            SpritePart::TailUp => 13,
            SpritePart::TailRight => 14,
            SpritePart::Apple => 15,
            SpritePart::TailLeft => 18,
            SpritePart::TailDown => 19,
        }
    }

    /// Row and column of the tile in the sprite sheet.
    pub fn sheet_cell(&self) -> (cell: (usize, usize))
        ensures
            cell.0 == self.sheet_row(),
            cell.1 == self.sheet_column(),
            cell.0 < SHEET_ROWS,
            cell.1 < SHEET_COLUMNS,
    {
        match self {
            SpritePart::BodyTopRight => (0, 0),
            SpritePart::BodyHorizontal => (0, 1),
            SpritePart::BodyTopLeft => (0, 2),
            SpritePart::HeadUp => (0, 3),
            SpritePart::HeadRight => (0, 4),
            SpritePart::BodyBottomRight => (1, 0),
            SpritePart::BodyVertical => (1, 2),
            SpritePart::HeadLeft => (1, 3),
            SpritePart::HeadDown => (1, 4),
            SpritePart::BodyBottomLeft => (2, 2),
            SpritePart::TailUp => (2, 3),
            SpritePart::TailRight => (2, 4),
            SpritePart::Apple => (3, 0),
            SpritePart::TailLeft => (3, 3),
            SpritePart::TailDown => (3, 4),
        }
    }

    /// Index of the tile in the sprite sheet, rows first: the number that the
    /// texture atlas knows the tile by.
    #[verifier::when_used_as_spec(spec_index)]
    pub fn index(&self) -> (i: usize)
        ensures
            i == self.spec_index(),
            i == self.sheet_row() * SHEET_COLUMNS + self.sheet_column(),
            i < SHEET_ROWS * SHEET_COLUMNS,
    {
        let (row, column) = self.sheet_cell();
        _calc_sprite_index(row, column, SHEET_COLUMNS)
    }
}

/// Index of the tile at `row` and `column` of a sheet with `columns_per_row`
/// tiles in each row.
pub fn _calc_sprite_index(row: usize, column: usize, columns_per_row: usize) -> (i: usize)
    requires
        row * columns_per_row + column <= usize::MAX,
    ensures
        i == row * columns_per_row + column,
{
    assert(row * columns_per_row <= usize::MAX) by (nonlinear_arith)
        requires
            row * columns_per_row + column <= usize::MAX,
            column >= 0,
    ;
    row * columns_per_row + column
}

/// The head tile for a head that travels in direction `d`.
pub open spec fn spec_head_sprite(d: Direction) -> SpritePart {
    match d {
        Direction::Up => SpritePart::HeadUp,
        Direction::Down => SpritePart::HeadDown,
        Direction::Left => SpritePart::HeadLeft,
        Direction::Right => SpritePart::HeadRight,
    }
}

/// The tail tile for a tail whose next step, towards the segment before it,
/// is in direction `d`.
pub open spec fn spec_tail_sprite(d: Direction) -> SpritePart {
    match d {
        Direction::Up => SpritePart::TailUp,
        Direction::Down => SpritePart::TailDown,
        Direction::Left => SpritePart::TailLeft,
        Direction::Right => SpritePart::TailRight,
    }
}

/// The body tile for a segment whose neighbours lie in directions `a` and
/// `b`. Two neighbours cannot lie in the same direction: such a pair has no
/// tile.
pub open spec fn spec_body_sprite(a: Direction, b: Direction) -> Option<SpritePart> {
    match (a, b) {
        (Direction::Up, Direction::Down) | (Direction::Down, Direction::Up) => Some(
            SpritePart::BodyVertical,
        ),
        (Direction::Left, Direction::Right) | (Direction::Right, Direction::Left) => Some(
            SpritePart::BodyHorizontal,
        ),
        (Direction::Up, Direction::Right) | (Direction::Right, Direction::Up) => Some(
            SpritePart::BodyTopRight,
        ),
        (Direction::Up, Direction::Left) | (Direction::Left, Direction::Up) => Some(
            SpritePart::BodyTopLeft,
        ),
        (Direction::Down, Direction::Right) | (Direction::Right, Direction::Down) => Some(
            SpritePart::BodyBottomRight,
        ),
        (Direction::Down, Direction::Left) | (Direction::Left, Direction::Down) => Some(
            SpritePart::BodyBottomLeft,
        ),
        _ => None,
    }
}

/// The head tile for a head that travels in direction `d`.
#[verifier::when_used_as_spec(spec_head_sprite)]
pub fn head_sprite(d: Direction) -> (s: SpritePart)
    ensures
        s == spec_head_sprite(d),
{
    match d {
        Direction::Up => SpritePart::HeadUp,
        Direction::Down => SpritePart::HeadDown,
        Direction::Left => SpritePart::HeadLeft,
        Direction::Right => SpritePart::HeadRight,
    }
}

/// The tail tile for a tail whose next step, towards the segment before it,
/// is in direction `d`.
#[verifier::when_used_as_spec(spec_tail_sprite)]
pub fn tail_sprite(d: Direction) -> (s: SpritePart)
    ensures
        s == spec_tail_sprite(d),
{
    match d {
        Direction::Up => SpritePart::TailUp,
        Direction::Down => SpritePart::TailDown,
        Direction::Left => SpritePart::TailLeft,
        Direction::Right => SpritePart::TailRight,
    }
}

/// The body tile for a segment whose neighbours lie in directions `a` and
/// `b`, or `None` where both lie in the same direction.
#[verifier::when_used_as_spec(spec_body_sprite)]
pub fn body_sprite(a: Direction, b: Direction) -> (s: Option<SpritePart>)
    ensures
        s == spec_body_sprite(a, b),
        s is None <==> a == b,
{
    match (a, b) {
        (Direction::Up, Direction::Down) | (Direction::Down, Direction::Up) => Some(
            SpritePart::BodyVertical,
        ),
        (Direction::Left, Direction::Right) | (Direction::Right, Direction::Left) => Some(
            SpritePart::BodyHorizontal,
        ),
        (Direction::Up, Direction::Right) | (Direction::Right, Direction::Up) => Some(
            SpritePart::BodyTopRight,
        ),
        (Direction::Up, Direction::Left) | (Direction::Left, Direction::Up) => Some(
            SpritePart::BodyTopLeft,
        ),
        (Direction::Down, Direction::Right) | (Direction::Right, Direction::Down) => Some(
            SpritePart::BodyBottomRight,
        ),
        (Direction::Down, Direction::Left) | (Direction::Left, Direction::Down) => Some(
            SpritePart::BodyBottomLeft,
        ),
        _ => None,
    }
}

/// The body classifier does not depend on the order of the two directions,
/// has a tile for each of the six pairs of different directions and for no
/// other pair, and only ever answers with a body tile.
pub proof fn lemma_body_sprite_total_and_symmetric(a: Direction, b: Direction)
    ensures
        spec_body_sprite(a, b) == spec_body_sprite(b, a),
        a != b <==> spec_body_sprite(a, b) is Some,
        spec_body_sprite(a, b) matches Some(s) ==> is_body_tile(s),
{
}

/// Two pairs of different directions get the same body tile only if they are
/// the same pair, in either order.
pub proof fn lemma_body_sprite_tells_pairs_apart(
    a: Direction,
    b: Direction,
    c: Direction,
    d: Direction,
)
    requires
        a != b,
        spec_body_sprite(a, b) == spec_body_sprite(c, d),
    ensures
        (a == c && b == d) || (a == d && b == c),
{
}

/// Whether `s` is one of the six body tiles.
pub open spec fn is_body_tile(s: SpritePart) -> bool {
    ||| s == SpritePart::BodyHorizontal
    ||| s == SpritePart::BodyVertical
    ||| s == SpritePart::BodyTopLeft
    ||| s == SpritePart::BodyTopRight
    ||| s == SpritePart::BodyBottomLeft
    ||| s == SpritePart::BodyBottomRight
}

/// The tile of segment `i` of the body `segments`, whose head travels in
/// direction `heading`. `None` where a body segment coincides with a
/// neighbour or its two neighbours lie in the same direction.
pub open spec fn spec_segment_sprite(segments: Seq<Position>, heading: Direction, i: int) -> Option<
    SpritePart,
>
    recommends
        0 <= i < segments.len(),
{
    if i == 0 {
        Some(spec_head_sprite(heading))
    } else if i == segments.len() - 1 {
        if segments[i] == segments[i - 1] {
            None
        } else {
            Some(spec_tail_sprite(direction_between(segments[i], segments[i - 1])))
        }
    } else if segments[i] == segments[i - 1] || segments[i] == segments[i + 1] {
        None
    } else {
        spec_body_sprite(
            direction_between(segments[i], segments[i - 1]),
            direction_between(segments[i], segments[i + 1]),
        )
    }
}

/// The tile of segment `i` of the body `segments`, whose head travels in
/// direction `heading`.
pub fn segment_sprite(segments: &Vec<Position>, heading: Direction, i: usize) -> (s: Option<
    SpritePart,
>)
    requires
        i < segments.len(),
    ensures
        s == spec_segment_sprite(segments@, heading, i as int),
{
    if i == 0 {
        Some(head_sprite(heading))
    } else if i == segments.len() - 1 {
        match crate::position::direction_to(&segments[i], &segments[i - 1]) {
            Some(d) => Some(tail_sprite(d)),
            None => None,
        }
    } else {
        let towards_head = crate::position::direction_to(&segments[i], &segments[i - 1]);
        let towards_tail = crate::position::direction_to(&segments[i], &segments[i + 1]);
        match (towards_head, towards_tail) {
            (Some(a), Some(b)) => body_sprite(a, b),
            _ => None,
        }
    }
}

/// Every segment of a body that is a chain and does not fold back has a
/// tile: the head a head tile, the tail a tail tile, and each segment
/// between them one of the six body tiles.
pub proof fn lemma_segment_sprite_defined(segments: Seq<Position>, heading: Direction, i: int)
    requires
        segments.len() >= 2,
        is_chain(segments),
        is_unfolded(segments),
        0 <= i < segments.len(),
    ensures
        spec_segment_sprite(segments, heading, i) is Some,
        0 < i < segments.len() - 1 ==> is_body_tile(
            spec_segment_sprite(segments, heading, i)->Some_0,
        ),
{
    if 0 < i < segments.len() - 1 {
        lemma_direction_between_neighbours(segments[i], segments[i - 1]);
        lemma_direction_between_neighbours(segments[i], segments[i + 1]);
        lemma_body_sprite_total_and_symmetric(
            direction_between(segments[i], segments[i - 1]),
            direction_between(segments[i], segments[i + 1]),
        );
    }
}

/// The tiles of a snake, head first: one for each of `segments`, for a head
/// that travels in direction `heading`.
pub fn snake_sprites(segments: &Vec<Position>, heading: Direction) -> (tiles: Vec<SpritePart>)
    requires
        segments@.len() >= 2,
        is_chain(segments@),
        is_unfolded(segments@),
    ensures
        tiles@.len() == segments@.len(),
        forall|i: int|
            0 <= i < tiles@.len() ==> spec_segment_sprite(segments@, heading, i) == Some(
                #[trigger] tiles@[i],
            ),
{
    let mut tiles: Vec<SpritePart> = Vec::new();
    let mut i: usize = 0;
    while i < segments.len()
        invariant
            i <= segments.len(),
            segments@.len() >= 2,
            is_chain(segments@),
            is_unfolded(segments@),
            tiles@.len() == i,
            forall|k: int|
                0 <= k < i ==> spec_segment_sprite(segments@, heading, k) == Some(
                    #[trigger] tiles@[k],
                ),
        decreases segments.len() - i,
    {
        proof {
            lemma_segment_sprite_defined(segments@, heading, i as int);
        }
        match segment_sprite(segments, heading, i) {
            Some(tile) => {
                tiles.push(tile);
            },
            None => {
                assert(false);
            },
        }
        i = i + 1;
    }
    tiles
}

} // verus!
