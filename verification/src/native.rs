//! The native-aligned-allocate adapter, for platforms whose allocator offers
//! a direct aligned-allocation call (such as `posix_memalign`).
//!
//! The native call itself is an `unsafe` foreign function and is made by an
//! unverified runner; this module holds the adapter's whole decision: how
//! each outcome of the call translates into the allocator's contract.  The
//! native primitive guarantees that a successful result is aligned as
//! requested; that guarantee lives in the platform's documentation and is
//! not restated here.

use vstd::prelude::*;
use crate::AllocError;
use crate::align::alignment_error;

verus! {

/// The outcome of the platform's aligned-allocation call, as its runner
/// reports it: the address it produced, or one of the two error conditions
/// the primitive can signal.
#[derive(Clone, Copy, Debug, PartialEq, Eq, Structural)]
pub enum MemalignOutcome {
    /// The call succeeded and produced this address.
    Success { addr: usize },
    /// The call rejected its arguments.
    InvalidArgument,
    /// The call ran out of memory.
    OutOfMemory,
}

/// Translates the native call's outcome into the allocator's contract: a
/// produced address is returned as is, exhaustion becomes the recoverable
/// null result, and an argument rejection is re-derived into the precise
/// contract violation — zero, below-minimum, or non-power-of-two alignment,
/// or a rejection this adapter cannot explain from the alignment alone.
pub fn interpret_memalign(outcome: MemalignOutcome, align: usize) -> (r: Result<
    Option<usize>,
    AllocError,
>)
    ensures
        outcome matches MemalignOutcome::Success { addr } ==> r == Ok::<Option<usize>, AllocError>(
            Some(addr),
        ),
        outcome == MemalignOutcome::OutOfMemory ==> r == Ok::<Option<usize>, AllocError>(
            None::<usize>,
        ),
        outcome == MemalignOutcome::InvalidArgument ==> r == Err::<Option<usize>, AllocError>(
            alignment_error(align),
        ),
{
    match outcome {
        MemalignOutcome::Success { addr } => Ok(Some(addr)),
        MemalignOutcome::OutOfMemory => Ok(None),
        MemalignOutcome::InvalidArgument => Err(diagnose_invalid_alignment(align)),
    }
}

/// Re-derives why the native call rejected an alignment, so that the caller
/// learns which part of the contract was broken.
pub fn diagnose_invalid_alignment(align: usize) -> (r: AllocError)
    ensures
        r == alignment_error(align),
{
    match crate::align::check_alignment(align) {
        Err(e) => e,
        Ok(()) => AllocError::InvalidAlignment,
    }
}

} // verus!
