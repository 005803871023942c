//! The clock: the current discrete time unit, counted in blocks.

use vstd::prelude::*;

verus! {

/// A block counter; the engine reads time from it one value at a time.
pub struct Clock {
    current: u64,
}

impl Clock {
    /// A clock standing at the given block.
    pub fn new(start: u64) -> (clock: Clock)
        ensures
            clock.spec_now() == start,
    {
        Clock { current: start }
    }

    /// The block the clock stands at, as seen by contracts.
    pub closed spec fn spec_now(&self) -> u64 {
        self.current
    }

    /// Reads the current block.
    pub fn now(&self) -> (n: u64)
        ensures
            n == self.spec_now(),
    {
        self.current
    }

    /// Advances the clock by one block.
    pub fn next_block(&mut self)
        ensures
            final(self).spec_now() == old(self).spec_now().saturating_add(1),
    {
        self.current = self.current.saturating_add(1);
    }

    /// Advances the clock block by block until it stands at `n`, or not at
    /// all if it is already there or past it.
    pub fn run_to(&mut self, n: u64)
        ensures
            final(self).spec_now() == if old(self).spec_now() < n {
                n
            } else {
                old(self).spec_now()
            },
    {
        while self.current < n
            invariant
                if old(self).spec_now() < n {
                    self.current <= n
                } else {
                    self.current == old(self).spec_now()
                },
            decreases n - self.current,
        {
            self.current = self.current + 1;
        }
    }
}

} // verus!
