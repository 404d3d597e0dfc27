//! Moving the heap boundary under the resolved strategy.

use vstd::prelude::*;
use crate::cursor::{BreakCursor, Step};
use crate::region::HeapStrategy;

verus! {

/// Starts a move of the heap boundary to `requested` under `strategy`
/// (`None`: no strategy could be resolved).
///
/// Without a strategy the move is refused with a null boundary. Inside a
/// fixed region the move is done at once. Where the kernel commits memory,
/// the step says what to ask it; see `BreakCursor::with_base` and
/// `BreakCursor::committed` for the rest of the move.
pub fn brk(strategy: Option<HeapStrategy>, cursor: &mut BreakCursor, requested: u64) -> (step:
    Step)
    requires
        old(cursor).wf(),
        strategy matches Some(HeapStrategy::FixedRegion(region)) ==> old(cursor).within(region),
    ensures
        final(cursor).wf(),
        match strategy {
            None => step == Step::Report(0) && *final(cursor) == *old(cursor),
            Some(HeapStrategy::FixedRegion(region)) => {
                &&& step == Step::Report(old(cursor).region_result(region, requested as int) as u64)
                &&& final(cursor).within(region)
                &&& final(cursor).offset_spec() == old(cursor).region_offset(region, requested as int)
                &&& final(cursor).base_spec() == old(cursor).base_spec()
            },
            Some(HeapStrategy::KernelNegotiated) => {
                &&& step == old(cursor).negotiate_step(requested as int)
                &&& *final(cursor) == *old(cursor)
            },
        },
        strategy is Some && old(cursor).base_spec() is Some && requested == old(cursor).boundary()
            ==> step == Step::Report(requested) && *final(cursor) == *old(cursor),
{
    match strategy {
        None => Step::Report(0),
        Some(HeapStrategy::FixedRegion(region)) => Step::Report(cursor.move_in_region(region, requested)),
        Some(HeapStrategy::KernelNegotiated) => cursor.negotiate(requested),
    }
}

} // verus!
