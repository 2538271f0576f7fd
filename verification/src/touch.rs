//! Which finger steers: the first touch that is seen is latched, and only
//! swipes of that touch steer the snake until it is lifted.

use vstd::prelude::*;

verus! {

/// The identifier of the touch that steers, if one is latched.
#[derive(Clone, Copy, Debug, PartialEq, Eq, Structural)]
pub struct TouchMap(pub Option<u64>);

impl Default for TouchMap {
    fn default() -> (t: Self)
        ensures
            t.0 is None,
    {
        TouchMap(None)
    }
}

impl TouchMap {
    /// A touch with identifier `id` was lifted or cancelled. If it is the
    /// latched touch, the latch opens.
    pub fn released(&mut self, id: u64)
        ensures
            final(self).0 == if old(self).0 == Some(id) {
                None
            } else {
                old(self).0
            },
    {
        match self.0 {
            Some(latched) => {
                if latched == id {
                    self.0 = None;
                }
            },
            None => {},
        }
    }

    /// `touches` fingers are on the screen. With none, the latch opens.
    pub fn touches_on_screen(&mut self, touches: usize)
        ensures
            final(self).0 == if touches == 0 {
                None
            } else {
                old(self).0
            },
    {
        if touches == 0 {
            self.0 = None;
        }
    }

    /// A touch with identifier `id` is on the screen. Returns whether its
    /// swipe steers: it does if it is the latched touch. With no touch
    /// latched, this one is latched and does not steer yet.
    pub fn observe(&mut self, id: u64) -> (steers: bool)
        ensures
            steers == (old(self).0 == Some(id)),
            final(self).0 == if old(self).0 is None {
                Some(id)
            } else {
                old(self).0
            },
    {
        match self.0 {
            None => {
                self.0 = Some(id);
                false
            },
            Some(latched) => latched == id,
        }
    }
}

} // verus!
