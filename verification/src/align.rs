//! Alignment arithmetic shared by both platform adapters: what a valid
//! alignment is, how an invalid one is classified, and how an address is
//! rounded up to the next aligned address.

use vstd::prelude::*;
use vstd::arithmetic::power2::{pow2, lemma_pow2_pos, lemma_pow2_unfold, lemma_pow2_adds,
    lemma_pow2_strictly_increases, lemma2_to64, lemma2_to64_rest};
use vstd::arithmetic::div_mod::{lemma_fundamental_div_mod, lemma_mod_division_less_than_divisor,
    lemma_mod_multiples_vanish, lemma_mod_self_0};
use vstd::arithmetic::mul::lemma_mul_is_associative;
use vstd::bits::{low_bits_mask, lemma_usize_low_bits_mask_is_mod};
use crate::AllocError;

verus! {

/// An alignment is a power of two that a `usize` can hold.
pub open spec fn is_power_of_two(a: usize) -> bool {
    exists|n: nat| n < usize::BITS && a == pow2(n)
}

/// A power of two is at least one.
pub proof fn lemma_power_of_two_pos(a: usize)
    requires
        is_power_of_two(a),
    ensures
        a >= 1,
{
    let n = choose|n: nat| n < usize::BITS && a == pow2(n);
    lemma_pow2_pos(n);
}

/// A nonzero value with a single set bit — one that `a & (a - 1)` clears to
/// zero — is a power of two.
proof fn lemma_single_bit_is_power_of_two(a: usize)
    requires
        a != 0,
        a & ((a - 1) as usize) == 0,
    ensures
        is_power_of_two(a),
    decreases a,
{
    lemma2_to64();
    if a == 1 {
        assert(0 < usize::BITS && a == pow2(0));
    } else {
        let h: usize = (a / 2) as usize;
        assert(a % 2 == 0 && h == a / 2 && h != 0 && h & ((h - 1) as usize) == 0 && h < a)
            by (bit_vector)
            requires
                a != 0,
                a != 1,
                a & ((a - 1) as usize) == 0,
                h == (a / 2) as usize,
        ;
        lemma_single_bit_is_power_of_two(h);
        let n = choose|n: nat| n < usize::BITS && h == pow2(n);
        lemma_fundamental_div_mod(a as int, 2);
        lemma_pow2_unfold((n + 1) as nat);
        assert(a == pow2((n + 1) as nat));
        if n + 1 >= usize::BITS {
            lemma2_to64_rest();
            assert(false);
        }
        assert(((n + 1) as nat) < usize::BITS && a == pow2((n + 1) as nat));
    }
}

/// Clearing the bits of a power of two below its single set bit leaves zero.
proof fn lemma_power_of_two_single_bit(a: usize)
    requires
        is_power_of_two(a),
    ensures
        a != 0,
        a & ((a - 1) as usize) == 0,
{
    let n = choose|n: nat| n < usize::BITS && a == pow2(n);
    lemma_pow2_pos(n);
    lemma_usize_low_bits_mask_is_mod(a, n);
    assert(low_bits_mask(n) == a - 1);
    lemma_mod_self_0(a as int);
}

/// Being a power of two is the same as having exactly one set bit, which is
/// what the runtime test `a != 0 && a & (a - 1) == 0` decides.
pub proof fn lemma_power_of_two_iff_single_bit(a: usize)
    ensures
        is_power_of_two(a) <==> (a != 0 && a & ((a - 1) as usize) == 0),
{
    if is_power_of_two(a) {
        lemma_power_of_two_single_bit(a);
    }
    if a != 0 && a & ((a - 1) as usize) == 0 {
        lemma_single_bit_is_power_of_two(a);
    }
}

/// For a power of two `align`, masking with `align - 1` is reduction modulo
/// `align`.
proof fn lemma_mask_is_mod(x: usize, align: usize)
    requires
        is_power_of_two(align),
    ensures
        x & ((align - 1) as usize) == x % align,
{
    let n = choose|n: nat| n < usize::BITS && align == pow2(n);
    lemma_pow2_pos(n);
    lemma_usize_low_bits_mask_is_mod(x, n);
    assert(low_bits_mask(n) == align - 1);
}

/// The platform's minimum native alignment: the machine word size.  Any
/// weaker alignment request is a contract violation.
pub open spec fn spec_min_alignment() -> nat {
    vstd::layout::size_of::<usize>()
}

/// The platform's minimum native alignment, as a runtime value.
pub fn min_alignment() -> (r: usize)
    ensures
        r as nat == spec_min_alignment(),
{
    core::mem::size_of::<usize>()
}

/// A request's alignment is valid when it is a power of two no weaker than
/// the platform's minimum native alignment.
pub open spec fn valid_alignment(align: usize) -> bool {
    is_power_of_two(align) && align as nat >= spec_min_alignment()
}

/// How an invalid alignment is classified for diagnostics: zero, below the
/// minimum, not a power of two, or (when none of those hold) an invalidity
/// only the native allocator could explain.
pub open spec fn alignment_error(align: usize) -> AllocError {
    if align == 0 {
        AllocError::ZeroAlignment
    } else if (align as nat) < spec_min_alignment() {
        AllocError::BelowMinimumAlignment
    } else if !is_power_of_two(align) {
        AllocError::NotPowerOfTwo
    } else {
        AllocError::InvalidAlignment
    }
}

/// Whether `a` is a power of two, decided at runtime.
pub fn power_of_two(a: usize) -> (r: bool)
    ensures
        r == is_power_of_two(a),
{
    proof {
        lemma_power_of_two_iff_single_bit(a);
    }
    a != 0 && a & (a - 1) == 0
}

/// Validates a requested alignment: accepts exactly the powers of two that
/// are at least the machine word size, and classifies every rejection.
pub fn check_alignment(align: usize) -> (r: Result<(), AllocError>)
    ensures
        r is Ok <==> valid_alignment(align),
        !valid_alignment(align) ==> r == Err::<(), AllocError>(alignment_error(align)),
{
    if align == 0 {
        proof {
            lemma_power_of_two_iff_single_bit(align);
        }
        Err(AllocError::ZeroAlignment)
    } else if align < min_alignment() {
        Err(AllocError::BelowMinimumAlignment)
    } else if !power_of_two(align) {
        Err(AllocError::NotPowerOfTwo)
    } else {
        Ok(())
    }
}

/// The lowest multiple of `align` that is at least `addr`.
pub open spec fn spec_align_up(addr: int, align: int) -> int
    recommends
        align >= 1,
{
    align * ((addr + align - 1) / align)
}

/// `spec_align_up(addr, align)` is aligned and lies within `align` bytes
/// above `addr`; it is therefore the unique aligned address in
/// `[addr, addr + align)`.
pub proof fn lemma_align_up_properties(addr: int, align: int)
    requires
        align >= 1,
        addr >= 0,
    ensures
        spec_align_up(addr, align) % align == 0,
        addr <= spec_align_up(addr, align) < addr + align,
{
    let d = addr + align - 1;
    let q = d / align;
    lemma_fundamental_div_mod(d, align);
    lemma_mod_division_less_than_divisor(d, align);
    assert(spec_align_up(addr, align) == d - d % align);
    lemma_mod_multiples_vanish(q, 0, align);
}

/// `spec_align_up(addr, align)` is the lowest aligned address at or above
/// `addr`: no other multiple of `align` at or above `addr` lies below it.
pub proof fn lemma_align_up_is_least(addr: int, align: int, q: int)
    requires
        align >= 1,
        addr >= 0,
        q >= addr,
        q % align == 0,
    ensures
        spec_align_up(addr, align) <= q,
{
    lemma_align_up_properties(addr, align);
    let r = spec_align_up(addr, align);
    let dr = (addr + align - 1) / align;
    if q < r {
        lemma_fundamental_div_mod(q, align);
        let dq = q / align;
        vstd::arithmetic::mul::lemma_mul_is_commutative(align, dq);
        if dq >= dr {
            vstd::arithmetic::mul::lemma_mul_inequality(dr, dq, align);
            vstd::arithmetic::mul::lemma_mul_is_commutative(align, dr);
        }
        assert(dq <= dr - 1);
        vstd::arithmetic::mul::lemma_mul_inequality(dq, dr - 1, align);
        vstd::arithmetic::mul::lemma_mul_is_commutative(align, dr - 1);
        vstd::arithmetic::mul::lemma_mul_is_distributive_sub(align, dr, 1);
        assert(q <= r - align);
        assert(false);
    }
}

/// Rounds `addr` up to the next multiple of `align` with the mask trick:
/// `(addr + align - 1) & !(align - 1)`.  The masking is sound only because
/// `align` is a power of two.
pub fn align_up(addr: usize, align: usize) -> (r: usize)
    requires
        is_power_of_two(align),
        addr + align - 1 <= usize::MAX,
    ensures
        r == spec_align_up(addr as int, align as int),
        r % align == 0,
        addr <= r < addr + align,
{
    proof {
        lemma_power_of_two_pos(align);
    }
    let mask: usize = align - 1;
    let d: usize = addr + mask;
    let r: usize = d & !mask;
    proof {
        assert(d & !mask == d - (d & mask)) by (bit_vector);
        lemma_mask_is_mod(d, align);
        lemma_fundamental_div_mod(d as int, align as int);
        lemma_align_up_properties(addr as int, align as int);
    }
    r
}

/// Any page-aligned address also satisfies every power-of-two alignment no
/// stricter than the page size.  This is why a plain page-granular
/// allocation already suffices whenever `align <= page_size`.
pub proof fn lemma_page_aligned_is_aligned(addr: usize, align: usize, page_size: usize)
    requires
        is_power_of_two(align),
        is_power_of_two(page_size),
        align <= page_size,
        addr % page_size == 0,
    ensures
        addr % align == 0,
{
    let n = choose|n: nat| n < usize::BITS && align == pow2(n);
    let m = choose|m: nat| m < usize::BITS && page_size == pow2(m);
    lemma_pow2_pos(n);
    lemma_pow2_pos(m);
    if m < n {
        lemma_pow2_strictly_increases(m, n);
        assert(false);
    }
    let a = align as int;
    let p = page_size as int;
    let x = addr as int;
    let k = pow2((m - n) as nat) as int;
    lemma_pow2_adds(n, (m - n) as nat);
    assert(p == a * k);
    lemma_fundamental_div_mod(x, p);
    assert(x == (a * k) * (x / p));
    lemma_mul_is_associative(a, k, x / p);
    lemma_mod_multiples_vanish(k * (x / p), 0, a);
    assert(x % a == 0);
}

} // verus!
