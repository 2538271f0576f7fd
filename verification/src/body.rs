//! The body of the snake as a sequence of cells, head first: where a new
//! snake lies, how the body advances by one cell, and how it grows.

use vstd::prelude::*;
use crate::position::{_detect_direction, direction_between, is_adjacent, Direction, Position};

verus! {

/// Number of segments of a new snake.
pub const STARTING_LENGTH: usize = 3;

/// Half of `n`, rounded towards zero.
pub open spec fn half(n: int) -> int {
    if n >= 0 {
        n / 2
    } else {
        -((-n) / 2)
    }
}

/// The cells of a new snake on a board of `board_size` cells: three cells in
/// a row at half height, the head on the right, five cells left of the
/// middle column.
pub open spec fn starting_cells(board_size: int) -> Seq<Position> {
    seq![
        Position { x: (half(board_size) - 5) as i32, y: half(board_size) as i32 },
        Position { x: (half(board_size) - 6) as i32, y: half(board_size) as i32 },
        Position { x: (half(board_size) - 7) as i32, y: half(board_size) as i32 },
    ]
}

/// Whether each cell of `s` is a neighbour of the cell that follows it.
pub open spec fn is_chain(s: Seq<Position>) -> bool {
    forall|i: int, j: int|
        0 <= i && j == i + 1 && j < s.len() ==> (#[trigger] s[i]).adjacent(#[trigger] s[j])
}

/// Whether no cell of `s` is the same as the cell two places after it: the
/// body never folds back onto itself.
pub open spec fn is_unfolded(s: Seq<Position>) -> bool {
    forall|i: int, j: int| 0 <= i && j == i + 2 && j < s.len() ==> #[trigger] s[i] != #[trigger] s[j]
}

/// The body `s` after one step of the head in direction `d`: the head moves
/// and every other segment takes the cell of the segment before it. This is
/// the same as dropping the tail and putting the new head in front.
pub open spec fn advanced(s: Seq<Position>, d: Direction) -> Seq<Position>
    recommends
        s.len() >= 1,
        s[0].can_step(d),
{
    seq![s[0].spec_step(d)] + s.drop_last()
}

/// The cell in which a body grows: one step beyond the tail, in the
/// direction that leads from the segment before the tail to the tail. This
/// is away from the body, against the tail's own direction of travel.
pub open spec fn extension_cell(s: Seq<Position>) -> Position
    recommends
        s.len() >= 2,
{
    s[s.len() - 1].spec_step(direction_between(s[s.len() - 2], s[s.len() - 1]))
}

/// Whether the body `s` can grow: it has a tail and a segment before it,
/// the two are different cells, and the cell beyond the tail has coordinates
/// that fit the coordinate type.
pub open spec fn can_grow(s: Seq<Position>) -> bool {
    &&& s.len() >= 2
    &&& s[s.len() - 1] != s[s.len() - 2]
    &&& s[s.len() - 1].can_step(direction_between(s[s.len() - 2], s[s.len() - 1]))
}

/// The body `s` after it has grown by one segment behind the tail.
pub open spec fn grown(s: Seq<Position>) -> Seq<Position>
    recommends
        can_grow(s),
{
    s.push(extension_cell(s))
}

/// Where a new snake lies on a board of `board_size` cells, head first.
pub fn snake_starting_position(board_size: i32) -> (cells: Vec<Position>)
    ensures
        cells@ == starting_cells(board_size as int),
        cells@.len() == STARTING_LENGTH,
        is_chain(cells@),
        is_unfolded(cells@),
{
    let start_x = board_size / 2 - 5;
    let start_y = board_size / 2;
    let mut cells: Vec<Position> = Vec::new();
    cells.push(Position { x: start_x, y: start_y });
    cells.push(Position { x: start_x - 1, y: start_y });
    cells.push(Position { x: start_x - 2, y: start_y });
    cells
}

/// Advances the body by one cell in direction `d`. The head steps, and each
/// other segment, from the one behind the head to the tail, takes the cell
/// that the segment before it has just left. The segments keep their places
/// in the vector, so a segment stays the same segment from tick to tick.
pub fn advance(segments: &mut Vec<Position>, d: Direction)
    requires
        old(segments)@.len() >= 1,
        old(segments)@[0].can_step(d),
    ensures
        final(segments)@ == advanced(old(segments)@, d),
        final(segments)@.len() == old(segments)@.len(),
{
    let ghost before = segments@;
    let n = segments.len();
    let mut prev = segments[0];
    segments.set(0, prev.step(d));
    let mut i: usize = 1;
    while i < n
        invariant
            1 <= i <= n,
            n == before.len(),
            segments@.len() == n,
            segments@[0] == before[0].spec_step(d),
            prev == before[i - 1],
            forall|j: int| 1 <= j < i ==> segments@[j] == before[j - 1],
            forall|j: int| i <= j < n ==> segments@[j] == before[j],
        decreases n - i,
    {
        let taken = segments[i];
        segments.set(i, prev);
        prev = taken;
        i = i + 1;
    }
}

/// Grows the body by one segment. The new segment is placed one cell beyond
/// the tail, on the side away from the segment before the tail, so it lies
/// on neither of them.
pub fn grow(segments: &mut Vec<Position>)
    requires
        can_grow(old(segments)@),
    ensures
        final(segments)@ == grown(old(segments)@),
        final(segments)@.len() == old(segments)@.len() + 1,
{
    let n = segments.len();
    let tail = segments[n - 1];
    let before_tail = segments[n - 2];
    let tail_direction = _detect_direction(&before_tail, &tail);
    segments.push(tail.step(tail_direction));
}

/// Whether each of `segments` is a neighbour of the one that follows it.
pub fn check_chain(segments: &Vec<Position>) -> (ok: bool)
    ensures
        ok == is_chain(segments@),
{
    let mut j: usize = 1;
    while j < segments.len()
        invariant
            1 <= j,
            forall|a: int, b: int|
                0 <= a && b == a + 1 && b < j && b < segments@.len() ==> (#[trigger] segments@[a]).adjacent(
                    #[trigger] segments@[b],
                ),
        decreases segments.len() - j,
    {
        if !is_adjacent(&segments[j - 1], &segments[j]) {
            return false;
        }
        j = j + 1;
    }
    true
}

/// Whether none of `segments` lies on the segment two places after it.
pub fn check_unfolded(segments: &Vec<Position>) -> (ok: bool)
    ensures
        ok == is_unfolded(segments@),
{
    let mut j: usize = 2;
    while j < segments.len()
        invariant
            2 <= j,
            forall|a: int, b: int|
                0 <= a && b == a + 2 && b < j && b < segments@.len() ==> #[trigger] segments@[a]
                    != #[trigger] segments@[b],
        decreases segments.len() - j,
    {
        if segments[j - 2] == segments[j] {
            return false;
        }
        j = j + 1;
    }
    true
}

/// Advancing keeps the length, keeps a chain a chain, and keeps the body
/// unfolded as long as the head does not step onto the segment behind it.
pub proof fn lemma_advanced_keeps_shape(s: Seq<Position>, d: Direction)
    requires
        s.len() >= 1,
        s[0].can_step(d),
    ensures
        advanced(s, d).len() == s.len(),
        advanced(s, d)[0] == s[0].spec_step(d),
        forall|i: int| 1 <= i < s.len() ==> advanced(s, d)[i] == s[i - 1],
        is_chain(s) ==> is_chain(advanced(s, d)),
        is_unfolded(s) && (s.len() >= 2 ==> s[0].spec_step(d) != s[1]) ==> is_unfolded(
            advanced(s, d),
        ),
{
    let a = advanced(s, d);
    assert forall|i: int| 1 <= i < s.len() implies a[i] == s[i - 1] by {}
    if is_chain(s) {
        crate::position::lemma_step_is_neighbour(s[0], d);
        assert(is_chain(a));
    }
    if is_unfolded(s) && (s.len() >= 2 ==> s[0].spec_step(d) != s[1]) {
        assert(is_unfolded(a));
    }
}

/// In a chain, the cell in which the body grows mirrors the segment before
/// the tail through the tail. It is a neighbour of the tail, and it is
/// neither the tail nor the segment before it.
pub proof fn lemma_extension_cell(s: Seq<Position>)
    requires
        can_grow(s),
        is_chain(s),
    ensures
        extension_cell(s).x == 2 * s[s.len() - 1].x - s[s.len() - 2].x,
        extension_cell(s).y == 2 * s[s.len() - 1].y - s[s.len() - 2].y,
        s[s.len() - 1].adjacent(extension_cell(s)),
        extension_cell(s) != s[s.len() - 1],
        extension_cell(s) != s[s.len() - 2],
{
}

/// Growing adds exactly one segment at the end, leaves the others alone,
/// keeps a chain a chain and keeps the body unfolded.
pub proof fn lemma_grown_keeps_shape(s: Seq<Position>)
    requires
        can_grow(s),
        is_chain(s),
    ensures
        grown(s).len() == s.len() + 1,
        forall|i: int| 0 <= i < s.len() ==> grown(s)[i] == s[i],
        grown(s)[s.len() as int] == extension_cell(s),
        is_chain(grown(s)),
        is_unfolded(s) ==> is_unfolded(grown(s)),
{
    lemma_extension_cell(s);
    assert(is_chain(grown(s)));
    if is_unfolded(s) {
        assert(is_unfolded(grown(s)));
    }
}

} // verus!
