//! Platform layer beneath a memory allocator: moving the heap boundary (the
//! program break) and yielding the time slice.
//!
//! Where the environment has no break call of its own, the break is emulated
//! either inside a fixed region or by asking the kernel to commit memory in
//! granule-sized steps. The decisions of both are made here, on plain values;
//! the caller performs the kernel calls that a step asks for.

use vstd::prelude::*;

pub mod align;
pub mod brk;
pub mod cursor;
pub mod region;
pub mod sched;

verus! {

} // verus!
