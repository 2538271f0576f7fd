//! The score of the running game, of the game before it, and the best so
//! far.

use vstd::prelude::*;

verus! {

#[derive(Clone, Copy, Debug, PartialEq, Eq, Structural)]
pub struct Score {
    pub value: i32,
    pub previous: i32,
    pub highest: i32,
}

impl Default for Score {
    fn default() -> (s: Self)
        ensures
            s == (Score { value: 0, previous: 0, highest: 0 }),
    {
        Self { value: 0, previous: 0, highest: 0 }
    }
}

impl Score {
    /// Counts one piece of food. The score stops counting at the largest
    /// value that it can hold.
    pub fn food_eaten(&mut self)
        ensures
            final(self).value == if old(self).value < i32::MAX {
                old(self).value + 1
            } else {
                i32::MAX as int
            },
            final(self).previous == old(self).previous,
            final(self).highest == old(self).highest,
    {
        if self.value < i32::MAX {
            self.value = self.value + 1;
        }
    }

    /// Closes the running game: its score becomes the previous score, the
    /// best score is raised to it if it was better, and counting starts
    /// again at zero.
    pub fn game_over(&mut self)
        ensures
            final(self).value == 0,
            final(self).previous == old(self).value,
            final(self).highest == if old(self).value > old(self).highest {
                old(self).value
            } else {
                old(self).highest
            },
    {
        if self.value > self.highest {
            self.highest = self.value;
        }
        self.previous = self.value;
        self.value = 0;
    }
}

} // verus!
