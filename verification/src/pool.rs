//! The shared worker pool: a fixed-size set of reusable execution
//! contexts, created once at startup and borrowed for one unit of work
//! at a time.
//!
//! The fields are private: the only ways to change occupancy are
//! `try_acquire` and `release`, so every reachable pool satisfies
//! `busy <= capacity` — the pool can never hand out more contexts than
//! it was created with.

use vstd::prelude::*;

verus! {

/// Occupancy model of the fixed-size worker pool.
pub struct WorkerPool {
    capacity: usize,
    busy: usize,
}

impl WorkerPool {
    /// Number of execution contexts the pool was created with.
    pub closed spec fn spec_capacity(self) -> nat {
        self.capacity as nat
    }

    /// Number of contexts currently lent out.
    pub closed spec fn spec_busy(self) -> nat {
        self.busy as nat
    }

    /// Well-formedness: never more contexts lent out than exist.
    pub open spec fn wf(self) -> bool {
        self.spec_busy() <= self.spec_capacity()
    }

    /// Create the pool, once at startup, with all contexts free.
    pub fn new(capacity: usize) -> (pool: WorkerPool)
        ensures
            pool.wf(),
            pool.spec_capacity() == capacity,
            pool.spec_busy() == 0,
    {
        WorkerPool { capacity, busy: 0 }
    }

    /// Borrow one context for one unit of work. Succeeds exactly when a
    /// context is free; never blocks and never over-commits.
    pub fn try_acquire(&mut self) -> (acquired: bool)
        requires
            old(self).wf(),
        ensures
            final(self).wf(),
            final(self).spec_capacity() == old(self).spec_capacity(),
            acquired == (old(self).spec_busy() < old(self).spec_capacity()),
            acquired ==> final(self).spec_busy() == old(self).spec_busy() + 1,
            !acquired ==> final(self).spec_busy() == old(self).spec_busy(),
    {
        if self.busy < self.capacity {
            self.busy = self.busy + 1;
            true
        } else {
            false
        }
    }

    /// Return a borrowed context to the pool when its unit of work
    /// completes or fails.
    pub fn release(&mut self)
        requires
            old(self).wf(),
            old(self).spec_busy() > 0,
        ensures
            final(self).wf(),
            final(self).spec_capacity() == old(self).spec_capacity(),
            final(self).spec_busy() == old(self).spec_busy() - 1,
    {
        self.busy = self.busy - 1;
    }
}

} // verus!
