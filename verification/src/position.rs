//! Grid cells and the four directions of travel.

use vstd::prelude::*;

verus! {

/// One of the four directions in which the snake can travel.
#[derive(Clone, Copy, Debug, PartialEq, Eq, Structural)]
pub enum Direction {
    Up,
    Down,
    Left,
    Right,
}

impl Direction {
    /// The reverse direction, for use in contracts.
    pub open spec fn spec_opposite(&self) -> Direction {
        match self {
            Direction::Up => Direction::Down,
            Direction::Down => Direction::Up,
            Direction::Left => Direction::Right,
            Direction::Right => Direction::Left,
        }
    }

    /// Change in `x` of one step in this direction.
    pub open spec fn dx(self) -> int {
        match self {
            Direction::Left => -1,
            Direction::Right => 1,
            _ => 0,
        }
    }

    /// Change in `y` of one step in this direction.
    pub open spec fn dy(self) -> int {
        match self {
            Direction::Up => 1,
            Direction::Down => -1,
            _ => 0,
        }
    }

    /// The reverse direction: up and down swap, left and right swap.
    #[verifier::when_used_as_spec(spec_opposite)]
    pub fn opposite(&self) -> (r: Direction)
        ensures
            r == self.spec_opposite(),
    {
        match self {
            Direction::Up => Direction::Down,
            Direction::Down => Direction::Up,
            Direction::Left => Direction::Right,
            Direction::Right => Direction::Left,
        }
    }
}

impl Default for Direction {
    /// The direction in which a new snake travels.
    fn default() -> (r: Direction)
        ensures
            r == Direction::Right,
    {
        Direction::Right
    }
}

/// Reversing a direction twice gives the direction back, and a direction is
/// never its own reverse.
pub proof fn lemma_opposite_involutive(d: Direction)
    ensures
        d.opposite().opposite() == d,
        d.opposite() != d,
        d.opposite().dx() == -d.dx(),
        d.opposite().dy() == -d.dy(),
{
}

/// A grid cell, in cell coordinates. `x` grows to the right and `y` grows
/// upwards. A cell may lie outside the board: a head that has left the board
/// is how a wall collision shows.
#[derive(Clone, Copy, Debug, PartialEq, Eq, Structural)]
pub struct Position {
    pub x: i32,
    pub y: i32,
}

impl Position {
    pub fn new(x: i32, y: i32) -> (p: Self)
        ensures
            p.x == x,
            p.y == y,
    {
        Self { x, y }
    }

    /// Whether the cell one step away in direction `d` has coordinates that
    /// fit the coordinate type.
    pub open spec fn can_step(self, d: Direction) -> bool {
        &&& i32::MIN <= self.x + d.dx() <= i32::MAX
        &&& i32::MIN <= self.y + d.dy() <= i32::MAX
    }

    /// The cell one step away in direction `d`.
    pub open spec fn spec_step(self, d: Direction) -> Position
        recommends
            self.can_step(d),
    {
        Position { x: (self.x + d.dx()) as i32, y: (self.y + d.dy()) as i32 }
    }

    /// Whether `other` is one cell away along exactly one axis.
    pub open spec fn adjacent(self, other: Position) -> bool {
        ||| (self.x == other.x && (self.y - other.y == 1 || other.y - self.y == 1))
        ||| (self.y == other.y && (self.x - other.x == 1 || other.x - self.x == 1))
    }

    /// The cell one step away in direction `d`. There is no wraparound.
    #[verifier::when_used_as_spec(spec_step)]
    pub fn step(self, d: Direction) -> (p: Position)
        requires
            self.can_step(d),
        ensures
            p == self.spec_step(d),
            p.x == self.x + d.dx(),
            p.y == self.y + d.dy(),
    {
        match d {
            Direction::Up => Position { x: self.x, y: self.y + 1 },
            Direction::Down => Position { x: self.x, y: self.y - 1 },
            Direction::Left => Position { x: self.x - 1, y: self.y },
            Direction::Right => Position { x: self.x + 1, y: self.y },
        }
    }
}

/// Whether `a` and `b` are one cell apart along exactly one axis.
pub fn is_adjacent(a: &Position, b: &Position) -> (r: bool)
    ensures
        r == a.adjacent(*b),
{
    let dx: i64 = (a.x as i64) - (b.x as i64);
    let dy: i64 = (a.y as i64) - (b.y as i64);
    (dx == 0 && (dy == 1 || dy == -1)) || (dy == 0 && (dx == 1 || dx == -1))
}

/// The direction of travel from `from` to `to`. The vertical axis is looked
/// at first, so for cells that differ on both axes the answer is `Up` or
/// `Down`. For equal cells there is no direction and the value is of no use.
pub open spec fn direction_between(from: Position, to: Position) -> Direction {
    if to.y > from.y {
        Direction::Up
    } else if to.y < from.y {
        Direction::Down
    } else if to.x > from.x {
        Direction::Right
    } else {
        Direction::Left
    }
}

/// The direction of travel from `from` to `to`, for two different cells.
pub fn _detect_direction(from: &Position, to: &Position) -> (d: Direction)
    requires
        *from != *to,
    ensures
        d == direction_between(*from, *to),
        from.adjacent(*to) ==> from.can_step(d) && *to == from.spec_step(d),
{
    if to.y > from.y {
        Direction::Up
    } else if to.y < from.y {
        Direction::Down
    } else if to.x > from.x {
        Direction::Right
    } else {
        Direction::Left
    }
}

/// The direction of travel from `from` to `to`, or `None` for equal cells.
pub fn direction_to(from: &Position, to: &Position) -> (d: Option<Direction>)
    ensures
        d == if *from == *to {
            None
        } else {
            Some(direction_between(*from, *to))
        },
{
    if from.x == to.x && from.y == to.y {
        None
    } else {
        Some(_detect_direction(from, to))
    }
}

/// Between neighbouring cells, the direction of travel is the one step that
/// leads from the first to the second, and the way back is its reverse.
pub proof fn lemma_direction_between_neighbours(from: Position, to: Position)
    requires
        from.adjacent(to),
    ensures
        from.can_step(direction_between(from, to)),
        from.spec_step(direction_between(from, to)) == to,
        direction_between(to, from) == direction_between(from, to).opposite(),
        forall|d: Direction| from.can_step(d) && from.spec_step(d) == to ==> d == direction_between(from, to),
{
}

/// A step leads to a neighbouring cell, and the direction of travel to that
/// cell is the direction of the step.
pub proof fn lemma_step_is_neighbour(from: Position, d: Direction)
    requires
        from.can_step(d),
    ensures
        from.adjacent(from.spec_step(d)),
        direction_between(from, from.spec_step(d)) == d,
        from.spec_step(d).can_step(d.opposite()),
        from.spec_step(d).spec_step(d.opposite()) == from,
{
}

} // verus!
