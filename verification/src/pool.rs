//! Accounting for the double memory pool of the shared-memory backend: two
//! alternating regions, of which at most one is handed to the display server
//! at a time, and the region so held is never offered for writing until the
//! round-trip that follows its commit has completed.

use vstd::prelude::*;

verus! {

/// Names one of the two regions of the double memory pool.
#[derive(Clone, Copy, PartialEq, Eq, Structural, Debug)]
pub enum PoolHalf {
    First,
    Second,
}

/// The region that is not `h`.
pub open spec fn other_half(h: PoolHalf) -> PoolHalf {
    match h {
        PoolHalf::First => PoolHalf::Second,
        PoolHalf::Second => PoolHalf::First,
    }
}

/// Computes `other_half` at run time.
pub fn other(h: PoolHalf) -> (r: PoolHalf)
    ensures
        r == other_half(h),
{
    match h {
        PoolHalf::First => PoolHalf::Second,
        PoolHalf::Second => PoolHalf::First,
    }
}

/// Tracks, for each region of the double pool, whether the display server
/// currently holds it: a region is held from the commit that attaches it
/// until the blocking round-trip that follows has completed.
#[derive(Clone, Copy, PartialEq, Eq, Structural, Debug)]
pub struct DoublePool {
    pub first_held: bool,
    pub second_held: bool,
}

impl DoublePool {
    /// Whether the display server currently holds region `h`.
    pub open spec fn held(self, h: PoolHalf) -> bool {
        match h {
            PoolHalf::First => self.first_held,
            PoolHalf::Second => self.second_held,
        }
    }

    /// The region `acquire` offers for writing: the first free region, or
    /// none while the server holds both.
    pub open spec fn spec_acquire(self) -> Option<PoolHalf> {
        if !self.first_held {
            Some(PoolHalf::First)
        } else if !self.second_held {
            Some(PoolHalf::Second)
        } else {
            None
        }
    }

    /// A fresh pool: neither region has been handed to the server yet.
    pub fn new() -> (p: DoublePool)
        ensures
            !p.held(PoolHalf::First),
            !p.held(PoolHalf::Second),
    {
        DoublePool { first_held: false, second_held: false }
    }

    /// Picks the region the next frame may be written into. A region the
    /// server holds is never offered; while the server holds both, no
    /// region is offered and the frame is skipped.
    pub fn acquire(&self) -> (r: Option<PoolHalf>)
        ensures
            r == self.spec_acquire(),
            r matches Some(h) ==> !self.held(h),
    {
        if !self.first_held {
            Some(PoolHalf::First)
        } else if !self.second_held {
            Some(PoolHalf::Second)
        } else {
            None
        }
    }

    /// Records that region `h` was attached and committed: the server holds
    /// it from now on.
    pub fn mark_held(&mut self, h: PoolHalf)
        requires
            !old(self).held(h),
        ensures
            final(self).held(h),
            final(self).held(other_half(h)) == old(self).held(other_half(h)),
    {
        match h {
            PoolHalf::First => self.first_held = true,
            PoolHalf::Second => self.second_held = true,
        }
    }

    /// Records that the round-trip covering region `h` has completed: the
    /// server has released it.
    pub fn mark_released(&mut self, h: PoolHalf)
        ensures
            !final(self).held(h),
            final(self).held(other_half(h)) == old(self).held(other_half(h)),
    {
        match h {
            PoolHalf::First => self.first_held = false,
            PoolHalf::Second => self.second_held = false,
        }
    }
}

/// The double-pool discipline: a region the display server was handed and
/// has not yet released by a completed round-trip is never the region
/// offered for the next frame's writes.
pub proof fn lemma_held_region_never_offered(p: DoublePool, h: PoolHalf)
    requires
        p.held(h),
    ensures
        p.spec_acquire() != Some(h),
{
}

} // verus!
