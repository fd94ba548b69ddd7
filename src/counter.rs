//! A saturating 64-bit counter that another contract drives by remote
//! calls.
use vstd::prelude::*;

verus! {

/// A counter that never wraps: it stops at `u64::MAX` going up and at zero
/// going down.
pub struct ContractC {
    count: u64,
}

impl ContractC {
    /// The current count.
    pub closed spec fn count(&self) -> u64 {
        self.count
    }

    /// A counter that starts at `init_value`.
    pub fn new(init_value: u64) -> (r: ContractC)
        ensures
            r.count() == init_value,
    {
        ContractC { count: init_value }
    }

    /// Adds one, unless the count is already `u64::MAX`.
    pub fn increment(&mut self)
        ensures
            final(self).count() == if old(self).count() < u64::MAX {
                (old(self).count() + 1) as u64
            } else {
                u64::MAX
            },
    {
        self.count = self.count.saturating_add(1);
    }

    /// Takes one away, unless the count is already zero.
    pub fn decrement(&mut self)
        ensures
            final(self).count() == if old(self).count() > 0 {
                (old(self).count() - 1) as u64
            } else {
                0
            },
    {
        self.count = self.count.saturating_sub(1);
    }

    /// The current count.
    pub fn get(&self) -> (r: u64)
        ensures
            r == self.count(),
    {
        self.count
    }
}

} // verus!
