//! The two collisions that end a game: the head leaves the board, or the
//! head lands on another segment of the snake.

use vstd::prelude::*;
use crate::board::on_board;
use crate::position::Position;

verus! {

/// Whether a head at `head` has left a board of `size` by `size` cells.
pub open spec fn hits_wall(head: Position, size: int) -> bool {
    head.x < 0 || head.x >= size || head.y < 0 || head.y >= size
}

/// Whether the head of the body `s`, its first cell, lies on another
/// segment.
pub open spec fn hits_self(s: Seq<Position>) -> bool {
    exists|i: int| 1 <= i < s.len() && #[trigger] s[i] == s[0]
}

/// Whether the body `s` has collided on a board of `size` by `size` cells.
/// A body without a head has not.
pub open spec fn has_collided(s: Seq<Position>, size: int) -> bool {
    s.len() > 0 && (hits_wall(s[0], size) || hits_self(s))
}

/// Whether a head at `head` has left a board of `board_size` cells.
pub fn wall_collision(head: &Position, board_size: i32) -> (hit: bool)
    ensures
        hit == hits_wall(*head, board_size as int),
        hit == !on_board(*head, board_size as int),
{
    head.x < 0 || head.y < 0 || head.x >= board_size || head.y >= board_size
}

/// Whether the head, the first of `segments`, lies on another segment.
/// Every segment is looked at, also after a hit was found.
pub fn self_collision(segments: &Vec<Position>) -> (hit: bool)
    ensures
        hit == hits_self(segments@),
{
    let mut hit = false;
    let mut i: usize = 1;
    while i < segments.len()
        invariant
            1 <= i,
            hit == (exists|k: int|
                1 <= k < i && k < segments@.len() && #[trigger] segments@[k] == segments@[0]),
        decreases segments.len() - i,
    {
        if segments[i] == segments[0] {
            hit = true;
        }
        i = i + 1;
    }
    hit
}

/// Whether the snake has collided: with a wall or with itself. Both are
/// looked for, whatever the first finds.
pub fn collision_detection(segments: &Vec<Position>, board_size: i32) -> (hit: bool)
    ensures
        hit == has_collided(segments@, board_size as int),
{
    if segments.len() == 0 {
        return false;
    }
    let wall = wall_collision(&segments[0], board_size);
    let body = self_collision(segments);
    wall || body
}

} // verus!
