//! Yielding the time slice to the scheduler.

use vstd::prelude::*;

verus! {

#[verifier::external_type_specification]
pub struct ExSyscallError(syscall::Error);

/// Relies on `syscall::sched_yield`: the kernel's answer is its own, but an
/// error comes out of `Error::demux`, which only makes errors of the numbers
/// 1 to 132.
#[verifier::external_body]
fn kernel_yield() -> (r: Result<usize, syscall::Error>)
    ensures
        r matches Err(e) ==> 1 <= e.errno < 133,
{
    syscall::sched_yield()
}

/// Relies on `syscall::Error::mux`: a value passes through, an error becomes
/// its number negated, as a `usize`.
#[verifier::external_body]
fn mux(outcome: Result<usize, syscall::Error>) -> (r: usize)
    requires
        outcome matches Err(e) ==> e.errno > 0,
    ensures
        match outcome {
            Ok(v) => r == v,
            Err(e) => r == usize::MAX + 1 - e.errno,
        },
{
    syscall::Error::mux(outcome)
}

/// The status code for the kernel's answer to a yield: the value it
/// returned, or the error number negated.
pub fn yield_status(outcome: Result<usize, syscall::Error>) -> (status: usize)
    requires
        outcome matches Err(e) ==> e.errno > 0,
    ensures
        match outcome {
            Ok(v) => status == v,
            Err(e) => status == usize::MAX + 1 - e.errno,
        },
{
    mux(outcome)
}

/// Gives the rest of the time slice to the Redox scheduler and returns the
/// kernel's status code, which says no more than that the call completed.
/// It needs no heap strategy and never allocates.
///
/// This is Redox's yield system call: other kernels read its number as a
/// different call, so it is for Redox only.
pub fn sched_yield() -> (status: usize) {
    let outcome = kernel_yield();
    yield_status(outcome)
}

} // verus!
