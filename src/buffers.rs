//! Two slots of one resource with a role flag: one is read this frame, the other
//! written, and the roles swap instead of the data moving.

use vstd::prelude::*;

verus! {

/// A pair of resources, one *current* (read) and one *scratch* (written).
pub struct BufferPair<T> {
    pub first: T,
    pub second: T,
    /// `first` is the current one.
    pub first_is_current: bool,
}

impl<T> BufferPair<T> {
    /// The resource that is read this frame.
    pub open spec fn current_item(&self) -> T {
        if self.first_is_current {
            self.first
        } else {
            self.second
        }
    }

    /// The resource that is written this frame.
    pub open spec fn scratch_item(&self) -> T {
        if self.first_is_current {
            self.second
        } else {
            self.first
        }
    }

    pub fn new(current: T, scratch: T) -> (r: Self)
        ensures
            r.current_item() == current,
            r.scratch_item() == scratch,
    {
        BufferPair { first: current, second: scratch, first_is_current: true }
    }

    pub fn current(&self) -> (r: &T)
        ensures
            *r == self.current_item(),
    {
        if self.first_is_current {
            &self.first
        } else {
            &self.second
        }
    }

    pub fn scratch(&self) -> (r: &T)
        ensures
            *r == self.scratch_item(),
    {
        if self.first_is_current {
            &self.second
        } else {
            &self.first
        }
    }

    /// Exchanges the roles of the two resources.
    pub fn swap(&mut self)
        ensures
            final(self).current_item() == old(self).scratch_item(),
            final(self).scratch_item() == old(self).current_item(),
    {
        self.first_is_current = !self.first_is_current;
    }

    /// Replaces both resources; `current` becomes the current one.
    pub fn replace(&mut self, current: T, scratch: T)
        ensures
            final(self).current_item() == current,
            final(self).scratch_item() == scratch,
    {
        self.first = current;
        self.second = scratch;
        self.first_is_current = true;
    }
}

} // verus!
