//! The break cursor: how much of the heap is in use, and the region move.

use vstd::prelude::*;
use crate::align::{align_up, covers, lemma_round_up_least, round_up, COMMIT_GRANULE};
use crate::region::{HeapStrategy, Region};

verus! {

/// The last boundary that was published: `offset` bytes in use from `base`.
///
/// `base` is `None` until a base address has been learned; the boundary is
/// then null.
#[derive(Clone, Copy, Debug, PartialEq, Eq, Structural)]
pub struct BreakCursor {
    offset: u64,
    base: Option<u64>,
}

/// `requested` lies inside `region`.
pub open spec fn in_region(region: Region, requested: int) -> bool {
    region.base <= requested < region.end()
}

/// What a move of the heap boundary asks for next.
#[derive(Clone, Copy, Debug, PartialEq, Eq, Structural)]
pub enum Step {
    /// The move is over: this is the boundary in effect.
    Report(u64),
    /// Ask the kernel for the heap's base address, then hand the answer to
    /// `BreakCursor::with_base`.
    QueryBase,
    /// Ask the kernel to commit `size` bytes from `base`, then hand whether
    /// it did to `BreakCursor::committed`.
    Commit { base: u64, size: u64 },
}

impl BreakCursor {
    pub closed spec fn offset_spec(self) -> nat {
        self.offset as nat
    }

    pub closed spec fn base_spec(self) -> Option<u64> {
        self.base
    }

    /// Nothing is in use before a base is known, and the boundary is an
    /// address.
    pub open spec fn wf(self) -> bool {
        match self.base_spec() {
            Some(b) => b + self.offset_spec() <= u64::MAX,
            None => self.offset_spec() == 0,
        }
    }

    /// The published boundary; null while no base is known.
    pub open spec fn boundary(self) -> int {
        match self.base_spec() {
            Some(b) => b + self.offset_spec(),
            None => 0,
        }
    }

    /// The cursor measures from the region's base and stays inside it.
    pub open spec fn within(self, region: Region) -> bool {
        &&& region.wf()
        &&& self.base_spec() == Some(region.base)
        &&& (self.offset_spec() == 0 || self.offset_spec() < region.length)
    }

    /// A cursor with nothing in use and no base.
    pub fn new() -> (c: BreakCursor)
        ensures
            c.wf(),
            c.offset_spec() == 0,
            c.base_spec() is None,
            c.boundary() == 0,
    {
        BreakCursor { offset: 0, base: None }
    }

    /// A cursor at the start of `region`, with nothing in use.
    pub fn in_region(region: Region) -> (c: BreakCursor)
        requires
            region.wf(),
        ensures
            c.wf(),
            c.within(region),
            c.offset_spec() == 0,
            c.boundary() == region.base,
    {
        BreakCursor { offset: 0, base: Some(region.base) }
    }

    /// A cursor with `offset` bytes in use from `base`, where that is an
    /// address; nothing is in use without a base.
    pub fn resume(base: Option<u64>, offset: u64) -> (r: Option<BreakCursor>)
        ensures
            r is Some <==> match base {
                Some(b) => b + offset <= u64::MAX,
                None => offset == 0,
            },
            r matches Some(c) ==> c.wf() && c.base_spec() == base && c.offset_spec() == offset,
    {
        match base {
            Some(b) => if offset <= u64::MAX - b {
                Some(BreakCursor { offset, base })
            } else {
                None
            },
            None => if offset == 0 {
                Some(BreakCursor { offset, base })
            } else {
                None
            },
        }
    }

    /// Bytes in use from the base.
    pub fn offset(&self) -> (r: u64)
        ensures
            r == self.offset_spec(),
    {
        self.offset
    }

    /// The base the offset is measured from, once known.
    pub fn base(&self) -> (r: Option<u64>)
        ensures
            r == self.base_spec(),
    {
        self.base
    }

    /// The published boundary.
    pub fn boundary_addr(&self) -> (r: u64)
        requires
            self.wf(),
        ensures
            r == self.boundary(),
    {
        match self.base {
            Some(b) => b + self.offset,
            None => 0,
        }
    }

    /// Moves the boundary to `requested` inside `region` and returns the
    /// boundary in effect afterwards.
    ///
    /// An address below the region is not a request: the boundary stays. An
    /// address at or past the region's end is refused and the boundary
    /// stays. Any other address becomes the boundary.
    pub fn move_in_region(&mut self, region: Region, requested: u64) -> (r: u64)
        requires
            old(self).wf(),
            old(self).within(region),
        ensures
            final(self).wf(),
            final(self).within(region),
            r == old(self).region_result(region, requested as int),
            final(self).offset_spec() == old(self).region_offset(region, requested as int),
            final(self).base_spec() == old(self).base_spec(),
            r == final(self).boundary(),
            !in_region(region, requested as int) ==> *final(self) == *old(self),
            requested == old(self).boundary() ==> r == requested && *final(self) == *old(self),
    {
        if requested < region.base {
            return region.base + self.offset;
        }
        let candidate = requested - region.base;
        if candidate >= region.length {
            return region.base + self.offset;
        }
        self.offset = candidate;
        requested
    }

    /// The boundary after a move to `requested` inside `region`.
    pub open spec fn region_result(self, region: Region, requested: int) -> int {
        if in_region(region, requested) {
            requested
        } else {
            region.base + self.offset_spec()
        }
    }

    /// The offset after a move to `requested` inside `region`.
    pub open spec fn region_offset(self, region: Region, requested: int) -> nat {
        if in_region(region, requested) {
            (requested - region.base) as nat
        } else {
            self.offset_spec()
        }
    }

    /// The offset is measured from `b`, or nothing is in use yet.
    pub open spec fn measured_from(self, b: int) -> bool {
        match self.base_spec() {
            Some(s) => s == b,
            None => true,
        }
    }

    /// The boundary to report when the kernel says the base is at `b` and the
    /// boundary does not move: the published one, or `b` before anything was
    /// published.
    pub open spec fn kept(self, b: int) -> int {
        match self.base_spec() {
            Some(_) => self.boundary(),
            None => b,
        }
    }

    /// The boundary to report for a request below the base `b` that the
    /// kernel reports: `b` plus the offset in use, or `b` alone where that sum
    /// is not an address. It is never below `b`.
    pub open spec fn clamped(self, b: int) -> int {
        if b + self.offset_spec() <= u64::MAX {
            b + self.offset_spec()
        } else {
            b
        }
    }

    /// First step of a move to `requested` where memory is committed by the
    /// kernel: a request for the published boundary is answered at once.
    pub open spec fn negotiate_step(self, requested: int) -> Step {
        if self.base_spec() is Some && requested == self.boundary() {
            Step::Report(requested as u64)
        } else {
            Step::QueryBase
        }
    }

    /// Step of a move to `requested` once the kernel has answered the base
    /// query with `queried` (`None`: the query failed).
    pub open spec fn base_step(self, requested: int, queried: Option<u64>) -> Step {
        match queried {
            None => Step::Report(self.boundary() as u64),
            Some(b) => if requested < b {
                Step::Report(self.clamped(b as int) as u64)
            } else if self.measured_from(b as int) && requested == b + self.offset_spec() {
                Step::Report(requested as u64)
            } else if round_up(requested - b, COMMIT_GRANULE as int) > u64::MAX {
                Step::Report(self.kept(b as int) as u64)
            } else {
                Step::Commit {
                    base: b,
                    size: round_up(requested - b, COMMIT_GRANULE as int) as u64,
                }
            },
        }
    }

    /// Starts a move of the boundary to `requested` where memory is committed
    /// by the kernel.
    pub fn negotiate(&self, requested: u64) -> (step: Step)
        requires
            self.wf(),
        ensures
            step == self.negotiate_step(requested as int),
            self.base_spec() is Some && requested == self.boundary() ==> step == Step::Report(
                requested,
            ),
    {
        match self.base {
            Some(b) => if requested == b + self.offset {
                Step::Report(requested)
            } else {
                Step::QueryBase
            },
            None => Step::QueryBase,
        }
    }

    /// Goes on with a move to `requested` once the kernel has answered the
    /// base query: `queried` is the heap's base address, or `None` where the
    /// query failed.
    ///
    /// A failed query leaves the boundary as it is. An address below the base
    /// is answered with the base plus the offset in use, without moving. Otherwise the size from the base is rounded up to whole commit
    /// granules and the kernel is asked to commit that much, unless the
    /// boundary is already there or the rounded size is not a `u64`.
    pub fn with_base(&self, requested: u64, queried: Option<u64>) -> (step: Step)
        requires
            self.wf(),
        ensures
            step == self.base_step(requested as int, queried),
            step matches Step::Commit { base, size } ==> {
                &&& queried == Some(base)
                &&& base <= requested
                &&& size % COMMIT_GRANULE == 0
                &&& requested - base <= size < requested - base + COMMIT_GRANULE
            },
    {
        match queried {
            None => Step::Report(self.boundary_addr()),
            Some(b) => {
                let kept = match self.base {
                    Some(_) => self.boundary_addr(),
                    None => b,
                };
                if requested < b {
                    if self.offset <= u64::MAX - b {
                        return Step::Report(b + self.offset);
                    } else {
                        return Step::Report(b);
                    }
                }
                let from_b = match self.base {
                    Some(s) => s == b,
                    None => true,
                };
                if from_b && requested - b == self.offset {
                    return Step::Report(requested);
                }
                match align_up(requested - b, COMMIT_GRANULE) {
                    Some(size) => {
                        proof {
                            crate::align::lemma_round_up_bounds(
                                requested - b,
                                COMMIT_GRANULE as int,
                            );
                        }
                        Step::Commit { base: b, size }
                    },
                    None => Step::Report(kept),
                }
            },
        }
    }

    /// Ends a move to `requested` from `base` with the kernel's answer to the
    /// commit: where it committed, `requested` becomes the boundary (the
    /// offset is the size asked for, not the rounded one); where it did not,
    /// the boundary stays and is returned.
    pub fn committed(&mut self, requested: u64, base: u64, ok: bool) -> (r: u64)
        requires
            old(self).wf(),
            base <= requested,
        ensures
            final(self).wf(),
            r == final(self).boundary() || (!ok && old(self).base_spec() is None),
            ok ==> {
                &&& r == requested
                &&& final(self).base_spec() == Some(base)
                &&& final(self).offset_spec() == requested - base
            },
            !ok ==> r == old(self).kept(base as int) && *final(self) == *old(self),
    {
        if ok {
            self.base = Some(base);
            self.offset = requested - base;
            requested
        } else {
            match self.base {
                Some(_) => self.boundary_addr(),
                None => base,
            }
        }
    }
}

/// A cursor inside a non-empty region has its offset below the region's
/// length; every region move keeps the cursor inside, so this holds after any
/// sequence of moves.
pub proof fn lemma_region_offset_bounded(c: BreakCursor, region: Region)
    requires
        c.within(region),
        region.length > 0,
    ensures
        0 <= c.offset_spec() < region.length,
{
}

/// A move to the region's end is refused and keeps the boundary and the
/// offset; a move to the last address inside the region is accepted.
pub proof fn lemma_region_end(c: BreakCursor, region: Region)
    requires
        c.within(region),
        region.length > 0,
    ensures
        c.region_result(region, region.end()) == region.base + c.offset_spec(),
        c.region_result(region, region.end()) == c.boundary(),
        c.region_offset(region, region.end()) == c.offset_spec(),
        c.region_result(region, region.end() - 1) == region.end() - 1,
        c.region_offset(region, region.end() - 1) == region.length - 1,
{
}

/// A move to an address below the region keeps the boundary, which is never
/// below the region's base.
pub proof fn lemma_region_below_base(c: BreakCursor, region: Region, requested: int)
    requires
        c.within(region),
        requested < region.base,
    ensures
        c.region_result(region, requested) == region.base + c.offset_spec(),
        c.region_result(region, requested) >= region.base,
        c.region_offset(region, requested) == c.offset_spec(),
{
}

/// On the kernel-negotiated path a request below the base that the kernel
/// reports is answered with that base plus the offset in use (the base alone
/// where the sum is not an address), never with an address below the base,
/// and asks for no commit.
pub proof fn lemma_kernel_below_base(c: BreakCursor, requested: int, b: u64)
    requires
        c.wf(),
        requested < b,
    ensures
        c.base_step(requested, Some(b)) == Step::Report(c.clamped(b as int) as u64),
        c.clamped(b as int) >= b,
        b + c.offset_spec() <= u64::MAX ==> c.clamped(b as int) == b + c.offset_spec(),
{
}

/// A request for the boundary in effect is answered with that boundary and
/// leaves the cursor as it is, under either strategy: inside a region the
/// move changes nothing, and where the kernel commits memory no commit is
/// asked for, and once the base is known not even the base query.
pub proof fn lemma_current_boundary_idempotent(c: BreakCursor, strategy: HeapStrategy, requested: int)
    requires
        c.wf(),
        strategy matches HeapStrategy::FixedRegion(region) ==> c.within(region),
    ensures
        strategy matches HeapStrategy::FixedRegion(region) ==> (requested == c.boundary() ==> {
            &&& c.region_result(region, requested) == requested
            &&& c.region_offset(region, requested) == c.offset_spec()
        }),
        strategy is KernelNegotiated ==> {
            &&& (c.base_spec() is Some && requested == c.boundary()) ==> c.negotiate_step(requested)
                == Step::Report(requested as u64)
            &&& forall|b: u64|
                #![trigger c.base_step(requested, Some(b))]
                c.measured_from(b as int) && requested == b + c.offset_spec() ==> c.base_step(
                    requested,
                    Some(b),
                ) == Step::Report(requested as u64)
        },
{
}

/// Where the kernel is asked to commit memory for a request `requested`
/// from base `b`, the size asked for is the smallest multiple of the commit
/// granule that holds `requested - b`; a size that is already a multiple is
/// asked for as it is.
pub proof fn lemma_commit_size(c: BreakCursor, requested: int, b: u64, m: int)
    requires
        c.wf(),
        b <= requested,
        !(c.measured_from(b as int) && requested == b + c.offset_spec()),
        round_up(requested - b, COMMIT_GRANULE as int) <= u64::MAX,
        covers(m, requested - b, COMMIT_GRANULE as int),
    ensures
        c.base_step(requested, Some(b)) == (Step::Commit {
            base: b,
            size: round_up(requested - b, COMMIT_GRANULE as int) as u64,
        }),
        covers(round_up(requested - b, COMMIT_GRANULE as int), requested - b, COMMIT_GRANULE as int),
        round_up(requested - b, COMMIT_GRANULE as int) <= m,
        (requested - b) % (COMMIT_GRANULE as int) == 0 ==> round_up(
            requested - b,
            COMMIT_GRANULE as int,
        ) == requested - b,
{
    lemma_round_up_least(requested - b, COMMIT_GRANULE as int, m);
}

/// Where the cursor is measured from the base `b` that the kernel reports, a
/// refused commit (`BreakCursor::committed` with `ok == false`) reports
/// exactly the boundary before the call, `b` plus the unchanged offset.
pub proof fn lemma_commit_failure_keeps_boundary(c: BreakCursor, b: u64)
    requires
        c.wf(),
        c.measured_from(b as int),
    ensures
        c.kept(b as int) == b + c.offset_spec(),
{
}

} // verus!
