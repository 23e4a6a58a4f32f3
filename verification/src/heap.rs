//! The heap that a memory pool is served from.
//!
//! A pool's bytes are handed out by [`linked_list_allocator::Heap`], which keeps the free
//! bytes of its region in holes.  A hole is a longest run of free bytes: the heap merges
//! neighbouring holes whenever a block is given back.  This module says, over the set of free
//! bytes, which hole serves a request and what is left of it.
use linked_list_allocator::Heap;
use std::alloc::Layout;
use vstd::layout::valid_layout;
use vstd::prelude::*;

verus! {

#[verifier::external_type_specification]
#[verifier::external_body]
pub struct ExHeap(linked_list_allocator::Heap);

/// The addresses of the bytes that lie in some hole of `heap`.
pub uninterp spec fn free_bytes(heap: Heap) -> Set<int>;

/// The size in bytes of a machine word, which is also the granularity of a heap.
pub open spec fn word() -> int {
    usize::BITS as int / 8
}

/// The least number of bytes a hole or a block of a heap can have.
pub open spec fn min_hole() -> int {
    2 * word()
}

/// The smallest multiple of `to` that is no smaller than `n`.
pub open spec fn round_up(n: int, to: int) -> int {
    (n + to - 1) / to * to
}

/// The number of bytes that a heap takes out of a hole for a request of `size` bytes.
pub open spec fn taken(size: int) -> int {
    round_up(if size < min_hole() { min_hole() } else { size }, word())
}

/// The addresses of the `len` bytes from `at` on.
pub open spec fn span(at: int, len: int) -> Set<int> {
    Set::new(|b: int| at <= b < at + len)
}

/// `[lo, hi)` is a longest run of free bytes.
pub open spec fn is_hole(free: Set<int>, lo: int, hi: int) -> bool {
    &&& lo < hi
    &&& span(lo, hi - lo).subset_of(free)
    &&& !free.contains(lo - 1)
    &&& !free.contains(hi)
}

/// Where a block goes in a hole that starts at `lo`: at its start if that is aligned, else at
/// the first aligned address that leaves room for a hole in front.
pub open spec fn placement(lo: int, align: int) -> int {
    if lo % align == 0 {
        lo
    } else {
        round_up(lo + min_hole(), align)
    }
}

/// `[lo, hi)` is a hole that can serve a request: the block fits, and what is left behind the
/// block is nothing or is large enough to be a hole itself.
pub open spec fn serves(free: Set<int>, lo: int, hi: int, size: int, align: int) -> bool {
    let end = placement(lo, align) + taken(size);
    &&& is_hole(free, lo, hi)
    &&& end == hi || end + min_hole() <= hi
}

/// `at` is where the lowest hole that can serve the request puts it.
pub open spec fn is_first_fit(free: Set<int>, size: int, align: int, at: int) -> bool {
    exists|lo: int, hi: int|
        {
            &&& #[trigger] serves(free, lo, hi, size, align)
            &&& at == placement(lo, align)
            &&& forall|l: int, h: int| #[trigger]
                serves(free, l, h, size, align) ==> lo <= l
        }
}

/// No hole can serve the request.
pub open spec fn no_fit(free: Set<int>, size: int, align: int) -> bool {
    forall|lo: int, hi: int| !#[trigger] serves(free, lo, hi, size, align)
}

/// [`Heap::empty`] makes a heap without holes.
pub assume_specification[ Heap::empty ]() -> (heap: Heap)
    ensures
        free_bytes(heap) == Set::<int>::empty(),
;

/// [`Heap::allocate_first_fit`]: looks through the holes in the order of their addresses and
/// takes the block out of the first one that can serve the request; every other free byte stays
/// free.  The block is aligned, is not at the null address and does not reach past the end of
/// the address space.  If no hole can serve the request, nothing changes.
#[verifier::external_body]
pub(crate) fn allocate_first_fit(heap: &mut Heap, size: usize, align: usize) -> (block: Option<
    usize,
>)
    requires
        valid_layout(size, align),
        align <= min_hole(),
    ensures
        block matches Some(at) ==> {
            &&& is_first_fit(free_bytes(*old(heap)), size as int, align as int, at as int)
            &&& free_bytes(*final(heap)) == free_bytes(*old(heap)).difference(
                span(at as int, taken(size as int)),
            )
            &&& at != 0
            &&& at as int % align as int == 0
            &&& at + taken(size as int) <= usize::MAX
        },
        block is None ==> {
            &&& no_fit(free_bytes(*old(heap)), size as int, align as int)
            &&& free_bytes(*final(heap)) == free_bytes(*old(heap))
        },
{
    let layout = Layout::from_size_align(size, align).ok()?;
    heap.allocate_first_fit(layout).ok().map(|block| block.addr().get())
}

/// [`Layout::from_size_align`] accepts a size and an alignment if and only if the alignment is
/// a power of two and the size, rounded up to a multiple of it, does not exceed `isize::MAX`.
#[verifier::external_body]
pub(crate) fn layout_is_valid(size: usize, align: usize) -> (ok: bool)
    ensures
        ok == valid_layout(size, align),
{
    Layout::from_size_align(size, align).is_ok()
}

} // verus!
