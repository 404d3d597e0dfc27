//! The ways in which a heap can grow.

use vstd::prelude::*;

verus! {

/// A pre-reserved, contiguous range of addresses `[base, base + length)`.
#[derive(Clone, Copy, Debug, PartialEq, Eq, Structural)]
pub struct Region {
    pub base: u64,
    pub length: u64,
}

impl Region {
    /// The whole range is addressable.
    pub open spec fn wf(self) -> bool {
        self.base + self.length <= u64::MAX
    }

    /// The first address past the region.
    pub open spec fn end(self) -> int {
        self.base + self.length
    }

    /// A region of `length` bytes from `base`, if its end is addressable.
    pub fn new(base: u64, length: u64) -> (r: Option<Region>)
        ensures
            r is Some <==> base + length <= u64::MAX,
            r matches Some(region) ==> region.base == base && region.length == length
                && region.wf(),
    {
        if length <= u64::MAX - base {
            Some(Region { base, length })
        } else {
            None
        }
    }
}

/// How the heap grows where the environment has no break call of its own.
#[derive(Clone, Copy, Debug, PartialEq, Eq, Structural)]
pub enum HeapStrategy {
    /// Growth is bookkeeping inside a pre-reserved region.
    FixedRegion(Region),
    /// Growth asks the kernel to commit memory, in whole granules.
    KernelNegotiated,
}

} // verus!
