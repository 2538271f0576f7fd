//! The head's direction of travel and the bounded queue of directions that
//! wait to be taken.
//!
//! Input is filtered when it is queued, not when it is taken: a direction is
//! refused where it would reverse the direction that comes just before it.
//! So the head never turns back onto the segment behind it.

use vstd::prelude::*;
use crate::position::Direction;

verus! {

/// The most directions that can wait in the queue.
pub const MAX_QUEUED: usize = 3;

/// What a `SnakeHeadDirection` stands for: the direction in which the head
/// travels and the directions that wait, the next one to be taken first.
pub struct HeadingModel {
    pub current: Direction,
    pub pending: Seq<Direction>,
}

impl HeadingModel {
    /// No more than `MAX_QUEUED` directions wait, and no direction in the
    /// line made of `current` and then `pending` reverses the one before it.
    pub open spec fn wf(self) -> bool {
        &&& self.pending.len() <= MAX_QUEUED
        &&& self.pending.len() > 0 ==> self.pending[0] != self.current.opposite()
        &&& forall|i: int, j: int|
            0 <= i && j == i + 1 && j < self.pending.len() ==> #[trigger] self.pending[j]
                != (#[trigger] self.pending[i]).opposite()
    }

    /// Whether `d` would be queued. Against a queue that holds something, `d`
    /// must not reverse the last direction in it and there must be room.
    /// Against an empty queue, `d` must not reverse `current`.
    pub open spec fn accepts(self, d: Direction) -> bool {
        if self.pending.len() > 0 {
            d != self.pending.last().opposite() && self.pending.len() < MAX_QUEUED
        } else {
            self.current != d.opposite()
        }
    }

    /// The state after `d` was offered: `d` is appended if it is accepted,
    /// and nothing changes if it is not.
    pub open spec fn queue(self, d: Direction) -> HeadingModel {
        if self.accepts(d) {
            HeadingModel { current: self.current, pending: self.pending.push(d) }
        } else {
            self
        }
    }

    /// The state after one direction was taken: the first waiting direction
    /// becomes `current`. With nothing waiting, nothing changes.
    pub open spec fn consume(self) -> HeadingModel {
        if self.pending.len() > 0 {
            HeadingModel { current: self.pending[0], pending: self.pending.drop_first() }
        } else {
            self
        }
    }
}

/// The head's direction of travel and the directions queued behind it.
#[derive(Clone, Debug, PartialEq, Eq)]
pub struct SnakeHeadDirection {
    current: Direction,
    directions: Vec<Direction>,
}

impl View for SnakeHeadDirection {
    type V = HeadingModel;

    closed spec fn view(&self) -> HeadingModel {
        HeadingModel { current: self.current, pending: self.directions@ }
    }
}

impl SnakeHeadDirection {
    /// A head that travels in direction `current` with nothing queued.
    pub fn facing(current: Direction) -> (h: Self)
        ensures
            h@.current == current,
            h@.pending == Seq::<Direction>::empty(),
            h@.wf(),
    {
        SnakeHeadDirection { current, directions: Vec::new() }
    }

    /// The direction in which the head travels.
    pub fn current(&self) -> (d: Direction)
        ensures
            d == self@.current,
    {
        self.current
    }

    /// The directions that wait, the next one to be taken first.
    pub fn queued(&self) -> (v: Vec<Direction>)
        ensures
            v@ == self@.pending,
    {
        let mut v: Vec<Direction> = Vec::new();
        let mut i: usize = 0;
        while i < self.directions.len()
            invariant
                i <= self.directions.len(),
                v@ == self.directions@.subrange(0, i as int),
            decreases self.directions.len() - i,
        {
            v.push(self.directions[i]);
            i = i + 1;
        }
        v
    }

    /// Offers `new_direction` to the queue. It is appended unless it would
    /// reverse the direction just before it or the queue is full; a refused
    /// direction is dropped without a trace.
    pub fn queue_direction(&mut self, new_direction: Direction)
        requires
            old(self)@.wf(),
        ensures
            final(self)@ == old(self)@.queue(new_direction),
            final(self)@.wf(),
    {
        let n = self.directions.len();
        if n > 0 {
            let last_direction = self.directions[n - 1];
            if new_direction != last_direction.opposite() && n < MAX_QUEUED {
                self.directions.push(new_direction);
            }
        } else if self.current != new_direction.opposite() {
            self.directions.push(new_direction);
        }
    }

    /// Takes the first queued direction as the direction of travel. With an
    /// empty queue the head keeps its direction. The new direction never
    /// reverses the one before it.
    pub fn consume_one(&mut self)
        requires
            old(self)@.wf(),
        ensures
            final(self)@ == old(self)@.consume(),
            final(self)@.wf(),
            final(self)@.current != old(self)@.current.opposite(),
    {
        if self.directions.len() > 0 {
            self.current = self.directions[0];
            self.directions.remove(0);
        }
    }
}

impl Default for SnakeHeadDirection {
    /// The heading of a new snake: it travels to the right, and one more
    /// step to the right is queued.
    fn default() -> (h: Self)
        ensures
            h@.current == Direction::Right,
            h@.pending == seq![Direction::Right],
            h@.wf(),
    {
        let mut directions: Vec<Direction> = Vec::new();
        directions.push(Direction::Right);
        SnakeHeadDirection { current: Direction::Right, directions }
    }
}

/// One thing that can happen to the heading: a direction is offered, or the
/// tick takes the next direction.
pub enum HeadingInput {
    Queue(Direction),
    Consume,
}

/// The heading after one input.
pub open spec fn heading_after(h: HeadingModel, input: HeadingInput) -> HeadingModel {
    match input {
        HeadingInput::Queue(d) => h.queue(d),
        HeadingInput::Consume => h.consume(),
    }
}

/// The heading after a run of inputs, the first input first.
pub open spec fn heading_after_all(h: HeadingModel, inputs: Seq<HeadingInput>) -> HeadingModel
    decreases inputs.len(),
{
    if inputs.len() == 0 {
        h
    } else {
        heading_after(heading_after_all(h, inputs.drop_last()), inputs.last())
    }
}

/// Offering a direction keeps the queue well formed and never changes the
/// direction of travel.
pub proof fn lemma_queue_keeps_wf(h: HeadingModel, d: Direction)
    requires
        h.wf(),
    ensures
        h.queue(d).wf(),
        h.queue(d).current == h.current,
        h.queue(d).pending.len() <= h.pending.len() + 1,
{
}

/// Taking a direction keeps the queue well formed, and the direction taken
/// does not reverse the direction of travel before it.
pub proof fn lemma_consume_keeps_wf(h: HeadingModel)
    requires
        h.wf(),
    ensures
        h.consume().wf(),
        h.consume().current != h.current.opposite(),
{
    if h.pending.len() > 0 {
        assert(h.consume().pending == h.pending.drop_first());
    }
}

/// Whatever is offered and whenever directions are taken, the queue stays
/// well formed.
pub proof fn lemma_heading_stays_wf(h: HeadingModel, inputs: Seq<HeadingInput>)
    requires
        h.wf(),
    ensures
        heading_after_all(h, inputs).wf(),
    decreases inputs.len(),
{
    if inputs.len() > 0 {
        lemma_heading_stays_wf(h, inputs.drop_last());
        let before = heading_after_all(h, inputs.drop_last());
        match inputs.last() {
            HeadingInput::Queue(d) => lemma_queue_keeps_wf(before, d),
            HeadingInput::Consume => lemma_consume_keeps_wf(before),
        }
    }
}

/// No reversal: in any run of inputs that starts from a well-formed heading,
/// no step turns the direction of travel into its own reverse. Here `k`
/// numbers the step, and the two headings are those just before and just
/// after it.
pub proof fn lemma_heading_never_reverses(h: HeadingModel, inputs: Seq<HeadingInput>, k: int)
    requires
        h.wf(),
        0 <= k < inputs.len(),
    ensures
        heading_after_all(h, inputs.take(k + 1)).current != heading_after_all(
            h,
            inputs.take(k),
        ).current.opposite(),
{
    let upto = inputs.take(k + 1);
    assert(upto.drop_last() == inputs.take(k));
    let before = heading_after_all(h, inputs.take(k));
    lemma_heading_stays_wf(h, inputs.take(k));
    match inputs[k] {
        HeadingInput::Queue(d) => lemma_queue_keeps_wf(before, d),
        HeadingInput::Consume => lemma_consume_keeps_wf(before),
    }
}

} // verus!
