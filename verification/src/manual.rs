//! The manual-alignment allocator, for platforms whose native allocator has
//! no direct aligned-allocation primitive.
//!
//! The platform offers only three operations: reserve an address range,
//! commit pages at an address, and release a reservation.  The algorithm
//! reserves a window of `size + align - 1` bytes (large enough to contain an
//! aligned block), computes the lowest aligned address inside it, releases
//! the window, and commits exactly `size` bytes at that address.  When the
//! requested alignment does not exceed the page size, a single page-granular
//! commit already satisfies it and the window is skipped.
//!
//! The platform calls themselves need `unsafe` foreign functions and are made
//! by an unverified runner; every decision between those calls is a verified
//! function here, taking the previous call's outcome and returning the next
//! action.  Between releasing the window and committing at the chosen address
//! the range is briefly unreserved, so a concurrent allocation may claim it
//! and make the commit fail; the runner must treat that as ordinary
//! exhaustion (a null commit result), not as a hard failure.

use vstd::prelude::*;
use crate::AllocError;
use crate::align::{valid_alignment, alignment_error, is_power_of_two, spec_align_up,
    check_alignment, align_up, lemma_power_of_two_pos, lemma_align_up_properties};

verus! {

/// The first platform call an allocation request needs.
#[derive(Clone, Copy, Debug, PartialEq, Eq, Structural)]
pub enum Step {
    /// Reserve and commit `bytes` readable-writable bytes at an address of
    /// the platform's choosing; page-granular placement already satisfies
    /// the requested alignment (fast path).
    CommitAnywhere { bytes: usize },
    /// Reserve a `bytes`-wide no-access window in which an aligned block
    /// will be located (slow path).
    ReserveWindow { bytes: usize },
}

/// What to do once the slow path's window reservation has been answered.
#[derive(Clone, Copy, Debug, PartialEq, Eq, Structural)]
pub enum WindowStep {
    /// Release the whole window starting at `window_base`, then reserve and
    /// commit `bytes` readable-writable bytes exactly at `addr`.
    ReleaseAndCommit { window_base: usize, addr: usize, bytes: usize },
    /// The reservation came back null: address space is exhausted, and the
    /// request fails recoverably.
    Exhausted,
}

/// A failed release of platform memory, with the platform's error code.
/// The allocator's invariants do not survive it, so callers must treat it
/// as a hard failure, never as a value to recover from.
#[derive(Clone, Copy, Debug, PartialEq, Eq, Structural)]
pub struct ReleaseFailure {
    pub code: u32,
}

/// Decides how to serve an allocation request: rejects an invalid alignment,
/// takes the fast path when the page size already guarantees the alignment,
/// and otherwise opens a window of `size + align - 1` bytes — enough to
/// contain an aligned `size`-byte block wherever the window lands.
pub fn aligned_alloc(size: usize, align: usize, page_size: usize) -> (r: Result<
    Step,
    AllocError,
>)
    requires
        valid_alignment(align) && align > page_size ==> size + align - 1 <= usize::MAX,
    ensures
        r is Ok <==> valid_alignment(align),
        !valid_alignment(align) ==> r == Err::<Step, AllocError>(alignment_error(align)),
        valid_alignment(align) && align <= page_size ==> r == Ok::<Step, AllocError>(
            Step::CommitAnywhere { bytes: size },
        ),
        valid_alignment(align) && align > page_size ==> r == Ok::<Step, AllocError>(
            Step::ReserveWindow { bytes: (size + align - 1) as usize },
        ),
{
    match check_alignment(align) {
        Err(e) => Err(e),
        Ok(()) => {
            proof {
                lemma_power_of_two_pos(align);
            }
            if align <= page_size {
                Ok(Step::CommitAnywhere { bytes: size })
            } else {
                Ok(Step::ReserveWindow { bytes: align - 1 + size })
            }
        },
    }
}

/// Decides what follows the window reservation: a null base means the
/// address space is exhausted; otherwise the lowest aligned address within
/// the window is where the block will be committed, and the window itself
/// is released first.
pub fn on_window_reserved(base: usize, size: usize, align: usize) -> (r: WindowStep)
    requires
        is_power_of_two(align),
        base != 0 ==> base + align - 1 <= usize::MAX,
    ensures
        base == 0 ==> r == WindowStep::Exhausted,
        base != 0 ==> r == (WindowStep::ReleaseAndCommit {
            window_base: base,
            addr: spec_align_up(base as int, align as int) as usize,
            bytes: size,
        }),
        base != 0 ==> spec_align_up(base as int, align as int) % (align as int) == 0,
        base != 0 ==> base <= spec_align_up(base as int, align as int) < base + align,
{
    if base == 0 {
        WindowStep::Exhausted
    } else {
        let addr = align_up(base, align);
        WindowStep::ReleaseAndCommit { window_base: base, addr, bytes: size }
    }
}

/// Decides what a release outcome means: success is silent, and a failure
/// is a hard failure carrying the platform's error code.
pub fn on_release_result(released: bool, native_error: u32) -> (r: Result<(), ReleaseFailure>)
    ensures
        released <==> r is Ok,
        !released ==> r == Err::<(), ReleaseFailure>(ReleaseFailure { code: native_error }),
{
    if released {
        Ok(())
    } else {
        Err(ReleaseFailure { code: native_error })
    }
}

/// Decides what a commit outcome means: a null address is exhaustion (on
/// the slow path this includes losing the briefly unreserved window to a
/// concurrent allocation), anything else is the allocated block.
pub fn on_commit_result(addr: usize) -> (r: Option<usize>)
    ensures
        addr == 0 ==> r is None,
        addr != 0 ==> r == Some(addr),
{
    if addr == 0 {
        None
    } else {
        Some(addr)
    }
}

/// Every address the manual allocator can hand out for a valid request is
/// aligned as requested: on the fast path (`align <= page_size`) because the
/// platform places every commit with page granularity, and on the slow path
/// because the machine commits exactly at the window's lowest aligned
/// address.
pub proof fn lemma_successful_alloc_is_aligned(
    align: usize,
    page_size: usize,
    addr: usize,
    base: usize,
)
    requires
        valid_alignment(align),
        is_power_of_two(page_size),
        align <= page_size ==> addr % page_size == 0,
        align > page_size ==> base != 0 && addr == spec_align_up(base as int, align as int),
    ensures
        addr % align == 0,
{
    if align <= page_size {
        crate::align::lemma_page_aligned_is_aligned(addr, align, page_size);
    } else {
        lemma_power_of_two_pos(align);
        lemma_align_up_properties(base as int, align as int);
    }
}

/// The window arithmetic is sufficient: a `size + align - 1`-byte window
/// starting anywhere contains the whole `size`-byte block placed at the
/// window's lowest aligned address.
pub proof fn lemma_commit_lies_in_window(base: usize, size: usize, align: usize)
    requires
        align >= 1,
    ensures
        base <= spec_align_up(base as int, align as int),
        spec_align_up(base as int, align as int) + size <= base + (size + align - 1),
{
    lemma_align_up_properties(base as int, align as int);
}

} // verus!
