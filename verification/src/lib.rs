//! Aligned memory allocation: obtain a memory block whose starting address
//! satisfies a caller-given power-of-two alignment stricter than what the
//! platform's default allocator guarantees.
//!
//! The verified library holds the alignment arithmetic and every decision the
//! two platform adapters make; the raw platform calls (which need `unsafe`
//! foreign functions) are driven by a thin unverified shell that feeds their
//! outcomes back into the functions here.

pub mod align;
pub mod manual;
pub mod native;
pub mod heap;

use vstd::prelude::*;

verus! {

/// Why an alignment request is rejected.  Invalid alignment is a programming
/// contract error: callers are expected to treat it as a hard failure, not to
/// recover from it.
#[derive(Clone, Copy, Debug, PartialEq, Eq, Structural)]
pub enum AllocError {
    /// The requested alignment is zero.
    ZeroAlignment,
    /// The requested alignment is below the platform's minimum native
    /// alignment (the machine word size).
    BelowMinimumAlignment,
    /// The requested alignment is not a power of two.
    NotPowerOfTwo,
    /// The native allocator rejected the arguments for a reason this library
    /// could not re-derive from the alignment alone.
    InvalidAlignment,
}

} // verus!
