//! Exercises the allocator's verified decision pipeline end to end by
//! playing the platform's part: the tests feed the machine the outcomes a
//! platform would produce and check every decision against the contract.

use aligned_alloc::AllocError;
use aligned_alloc::align::{align_up, check_alignment, min_alignment, power_of_two};
use aligned_alloc::manual::{
    aligned_alloc, on_commit_result, on_release_result, on_window_reserved, ReleaseFailure, Step,
    WindowStep,
};
use aligned_alloc::native::{diagnose_invalid_alignment, interpret_memalign, MemalignOutcome};

const PAGE: usize = 4096;

/// Drives the manual allocator as a platform runner would, granting
/// reservations at `base` and commits at whatever address the machine asks
/// for (page-aligned `anywhere` for the fast path).
fn run_manual(size: usize, align: usize, base: usize, anywhere: usize) -> Option<usize> {
    match aligned_alloc(size, align, PAGE) {
        Err(e) => panic!("invalid alignment {}: {:?}", align, e),
        Ok(Step::CommitAnywhere { bytes }) => {
            assert_eq!(bytes, size);
            on_commit_result(anywhere)
        }
        Ok(Step::ReserveWindow { bytes }) => {
            assert_eq!(bytes, size + align - 1);
            match on_window_reserved(base, size, align) {
                WindowStep::Exhausted => None,
                WindowStep::ReleaseAndCommit { window_base, addr, bytes } => {
                    assert_eq!(window_base, base);
                    assert_eq!(bytes, size);
                    assert!(addr >= base && addr < base + align);
                    assert!(addr + size <= base + (size + align - 1));
                    on_release_result(true, 0).expect("release of the window failed");
                    on_commit_result(addr)
                }
            }
        }
    }
}

#[test]
fn small_low_align() {
    let ptr = run_manual(1, 128, 0, 0x7f00_2000_0000);
    let ptr = ptr.expect("allocation failed");
    assert!(ptr != 0);
    assert!(ptr % 128 == 0);
    on_release_result(true, 0).expect("free failed");
}

#[test]
fn small_high_align() {
    let ptr = run_manual(1, 1024 * 1024, 0x7f00_2abc_d000, 0);
    let ptr = ptr.expect("allocation failed");
    assert!(ptr != 0);
    assert!(ptr % (1024 * 1024) == 0);
    on_release_result(true, 0).expect("free failed");
}

#[test]
fn large_high_align() {
    // allocate 1 MiB aligned to 1 MiB
    let ptr = run_manual(1024 * 1024, 1024 * 1024, 0x7f00_2abc_d000, 0);
    let ptr = ptr.expect("allocation failed");
    assert!(ptr != 0);
    assert!(ptr % (1024 * 1024) == 0);
    on_release_result(true, 0).expect("free failed");
}

#[test]
fn align_less_than_sizeof_usize() {
    // alignment of less than sizeof(usize)
    assert_eq!(aligned_alloc(1, 3, PAGE), Err(AllocError::BelowMinimumAlignment));
    assert_eq!(diagnose_invalid_alignment(3), AllocError::BelowMinimumAlignment);
}

#[test]
fn align_not_power_of_two() {
    assert_eq!(aligned_alloc(1, 27, PAGE), Err(AllocError::NotPowerOfTwo));
    assert_eq!(diagnose_invalid_alignment(27), AllocError::NotPowerOfTwo);
}

#[test]
fn align_zero() {
    assert_eq!(aligned_alloc(1, 0, PAGE), Err(AllocError::ZeroAlignment));
    assert_eq!(diagnose_invalid_alignment(0), AllocError::ZeroAlignment);
}

#[test]
fn valid_aligns_give_aligned_addresses() {
    // For every valid (size, align) tried, a granted allocation is aligned.
    let bases = [0x7f00_2abc_d123, 0x5555_5555_0001, 0x1000_0fff];
    for &align in &[128usize, 4096, 1024 * 1024] {
        for &size in &[1usize, 7, 4096, 1024 * 1024] {
            for &base in &bases {
                let page_aligned = 0x7f00_2000_0000;
                if let Some(p) = run_manual(size, align, base & !(PAGE - 1), page_aligned) {
                    assert!(p % align == 0, "size {} align {}: got {:#x}", size, align, p);
                }
            }
        }
    }
}

#[test]
fn fast_path_taken_up_to_page_size() {
    assert_eq!(aligned_alloc(64, 4096, PAGE), Ok(Step::CommitAnywhere { bytes: 64 }));
    assert_eq!(
        aligned_alloc(64, 8192, PAGE),
        Ok(Step::ReserveWindow { bytes: 64 + 8192 - 1 })
    );
}

#[test]
fn window_size_boundary_when_size_equals_align() {
    // size == align: the window is size + align - 1 bytes and still suffices.
    let align: usize = 1024 * 1024;
    match aligned_alloc(align, align, PAGE) {
        Ok(Step::ReserveWindow { bytes }) => assert_eq!(bytes, 2 * align - 1),
        other => panic!("expected a window reservation, got {:?}", other),
    }
}

#[test]
fn reservation_exhaustion_is_recoverable() {
    // A null window reservation is exhaustion, not a hard failure.
    assert_eq!(on_window_reserved(0, 1, 1024 * 1024), WindowStep::Exhausted);
}

#[test]
fn lost_commit_race_is_exhaustion() {
    // A null commit (including the released window being claimed by another
    // thread) folds into the recoverable null result.
    assert_eq!(on_commit_result(0), None);
    assert_eq!(on_commit_result(0x7f00_0010_0000), Some(0x7f00_0010_0000));
}

#[test]
fn release_failure_is_hard_and_keeps_the_code() {
    assert_eq!(on_release_result(false, 87), Err(ReleaseFailure { code: 87 }));
    assert_eq!(on_release_result(true, 0), Ok(()));
}

#[test]
fn align_up_rounds_to_next_multiple() {
    assert_eq!(align_up(5000, 4096), 8192);
    assert_eq!(align_up(8192, 4096), 8192);
    assert_eq!(align_up(1, 128), 128);
    assert_eq!(align_up(0, 1024 * 1024), 0);
    assert_eq!(align_up(0x7f00_2abc_d123, 1024 * 1024), 0x7f00_2ac0_0000);
}

#[test]
fn power_of_two_checker() {
    assert!(power_of_two(1));
    assert!(power_of_two(2));
    assert!(power_of_two(128));
    assert!(power_of_two(1024 * 1024));
    assert!(!power_of_two(0));
    assert!(!power_of_two(27));
    assert!(!power_of_two(usize::MAX));
}

#[test]
fn check_alignment_accepts_valid_requests() {
    assert_eq!(check_alignment(128), Ok(()));
    assert_eq!(check_alignment(min_alignment()), Ok(()));
    assert_eq!(min_alignment(), std::mem::size_of::<usize>());
}

#[test]
fn native_success_and_exhaustion_pass_through() {
    let got = interpret_memalign(MemalignOutcome::Success { addr: 0x7f00_0010_0000 }, 128);
    assert_eq!(got, Ok(Some(0x7f00_0010_0000)));
    assert_eq!(interpret_memalign(MemalignOutcome::OutOfMemory, 128), Ok(None));
}

#[test]
fn native_rejection_is_diagnosed() {
    assert_eq!(
        interpret_memalign(MemalignOutcome::InvalidArgument, 0),
        Err(AllocError::ZeroAlignment)
    );
    assert_eq!(
        interpret_memalign(MemalignOutcome::InvalidArgument, 3),
        Err(AllocError::BelowMinimumAlignment)
    );
    assert_eq!(
        interpret_memalign(MemalignOutcome::InvalidArgument, 27),
        Err(AllocError::NotPowerOfTwo)
    );
    // A rejection of arguments this adapter finds valid cannot be explained
    // from the alignment alone.
    assert_eq!(
        interpret_memalign(MemalignOutcome::InvalidArgument, 128),
        Err(AllocError::InvalidAlignment)
    );
}

#[test]
fn allocate_then_free_round_trip() {
    // A granted allocation is freed exactly once without hard failure.
    let ptr = run_manual(1, 128, 0, 0x7f00_2000_0000).expect("allocation failed");
    assert!(ptr != 0);
    assert_eq!(on_release_result(true, 0), Ok(()));
}
