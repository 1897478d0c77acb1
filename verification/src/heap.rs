//! A mathematical model of the allocations alive in a process, used to state
//! the allocator's ownership contract: a successful allocation is a non-null
//! aligned block that overlaps no other live allocation, the caller owns it
//! exclusively, and exactly one later free of that address is permitted.
//!
//! The allocator itself keeps no such table at runtime — the platform owns
//! the address space — so the model is specification-only.

use vstd::prelude::*;

verus! {

/// Two byte ranges `[p1, p1 + s1)` and `[p2, p2 + s2)` do not overlap.
pub open spec fn blocks_disjoint(p1: usize, s1: usize, p2: usize, s2: usize) -> bool {
    p1 + s1 <= p2 || p2 + s2 <= p1
}

/// The live allocations of a process: each block's address, mapped to its
/// size in bytes.
#[verifier::ext_equal]
pub struct HeapModel {
    pub blocks: Map<usize, usize>,
}

impl HeapModel {
    /// A heap with no live allocations.
    pub open spec fn empty() -> HeapModel {
        HeapModel { blocks: Map::empty() }
    }

    /// Every live block is non-null and non-empty, and no two live blocks
    /// overlap: each caller owns its block exclusively.
    pub open spec fn wf(self) -> bool {
        &&& forall|p: usize| #[trigger]
            self.blocks.dom().contains(p) ==> p != 0 && self.blocks[p] >= 1
        &&& forall|p: usize, q: usize|
            self.blocks.dom().contains(p) && self.blocks.dom().contains(q) && p != q
                ==> blocks_disjoint(p, self.blocks[p], q, self.blocks[q])
    }

    /// An allocation of `size` bytes with alignment `align` may be placed at
    /// `p`: the address is non-null, aligned, the block is non-empty, fits in
    /// the address space, and overlaps no live allocation.
    pub open spec fn can_allocate_at(self, p: usize, size: usize, align: usize) -> bool {
        &&& p != 0
        &&& size >= 1
        &&& p % align == 0
        &&& p + size <= usize::MAX + 1
        &&& forall|q: usize| #[trigger]
            self.blocks.dom().contains(q) ==> blocks_disjoint(p, size, q, self.blocks[q])
    }

    /// The heap after an allocation of `size` bytes at `p`.
    pub open spec fn allocate(self, p: usize, size: usize) -> HeapModel {
        HeapModel { blocks: self.blocks.insert(p, size) }
    }

    /// Whether `p` may be freed: only an address that is currently a live
    /// allocation.  Freeing any other address is undefined behavior, which
    /// the contract places on the caller.
    pub open spec fn can_free(self, p: usize) -> bool {
        self.blocks.dom().contains(p)
    }

    /// The heap after freeing the allocation at `p`.
    pub open spec fn free(self, p: usize) -> HeapModel {
        HeapModel { blocks: self.blocks.remove(p) }
    }
}

/// A permitted allocation keeps the heap well formed: the new block is owned
/// exclusively alongside every existing block.
pub proof fn lemma_allocate_preserves_wf(h: HeapModel, p: usize, size: usize, align: usize)
    requires
        h.wf(),
        h.can_allocate_at(p, size, align),
    ensures
        h.allocate(p, size).wf(),
{
}

/// Freeing a live allocation keeps the heap well formed.
pub proof fn lemma_free_preserves_wf(h: HeapModel, p: usize)
    requires
        h.wf(),
    ensures
        h.free(p).wf(),
{
}

/// The round-trip law: after a permitted allocation at `p`, freeing `p` is
/// permitted exactly once — the first free restores the heap as it was, and
/// a second free of the same address is no longer permitted.
pub proof fn lemma_allocate_free_round_trip(h: HeapModel, p: usize, size: usize, align: usize)
    requires
        h.wf(),
        h.can_allocate_at(p, size, align),
    ensures
        h.allocate(p, size).can_free(p),
        h.allocate(p, size).free(p) == h,
        !h.allocate(p, size).free(p).can_free(p),
{
    if h.blocks.dom().contains(p) {
        assert(blocks_disjoint(p, size, p, h.blocks[p]));
        assert(false);
    }
    assert(h.allocate(p, size).free(p).blocks =~= h.blocks);
    assert(h.allocate(p, size).free(p) =~= h);
}

} // verus!
