//! What holds of the library as a whole.
//!
//! The host's side of a call is described by what it does to memory, a function from addresses
//! to bytes.  A heap keeps its own records in its free bytes, so the value of a free byte may
//! change at any time; every other byte changes only as the host's action says.
use crate::block::{
    filled, storable, AllocationHeader, Block, ByteOrder, ALIGNMENT, HEADER_SIZE, NULL,
};
use crate::heap::{
    free_bytes, is_first_fit, is_hole, min_hole, no_fit, placement, round_up, serves, span, taken,
    word,
};
use crate::pool::{
    frees, gives_back, mallocs, replaces, takes_block, Action, CustomMemoryPoolData, PoolRegion,
    ALLOC_FOR_LINEAR_MEMORY,
};
use crate::runtime::{MemAllocType, RunningMode, RuntimeBuilder};
use linked_list_allocator::Heap;
use vstd::prelude::*;

verus! {

/// The `len` bytes of `memory` from `at` on.
pub open spec fn bytes_at(memory: spec_fn(int) -> u8, at: int, len: int) -> Seq<u8> {
    Seq::new(len as nat, |i: int| memory(at + i))
}

/// The header that `memory` holds at `raw`, on a machine with the byte order `order`.
pub open spec fn header_at(
    order: ByteOrder,
    memory: spec_fn(int) -> u8,
    raw: int,
) -> AllocationHeader {
    AllocationHeader::spec_read(order, bytes_at(memory, raw, HEADER_SIZE as int))
}

/// The payload of `block` in `memory`.
pub open spec fn payload(memory: spec_fn(int) -> u8, block: Block) -> Seq<u8> {
    bytes_at(memory, block.spec_ptr(), block.size as int)
}

/// `memory` and `after` agree on every byte but those in `changed`.
pub open spec fn agree_outside(
    memory: spec_fn(int) -> u8,
    after: spec_fn(int) -> u8,
    changed: Set<int>,
) -> bool {
    forall|b: int| !changed.contains(b) ==> #[trigger] after(b) == memory(b)
}

/// The host has carried out [`Action::Open`]; `free` are the bytes that were free before the
/// call.
pub open spec fn opened(
    order: ByteOrder,
    memory: spec_fn(int) -> u8,
    after: spec_fn(int) -> u8,
    free: Set<int>,
    block: Block,
) -> bool {
    &&& agree_outside(memory, after, free)
    &&& order.value(bytes_at(after, block.raw as int, HEADER_SIZE as int)) == block.size
}

/// The host has carried out [`Action::Close`]; `free` are the bytes that were free before.
pub open spec fn closed(
    memory: spec_fn(int) -> u8,
    after: spec_fn(int) -> u8,
    free: Set<int>,
    block: Block,
) -> bool {
    agree_outside(memory, after, free.union(block.extent()))
}

/// The host has carried out [`Action::Move`], with [`Block::fill_from`] for the bytes of `to`;
/// `free` are the bytes that were free before the call.
pub open spec fn moved(
    order: ByteOrder,
    memory: spec_fn(int) -> u8,
    after: spec_fn(int) -> u8,
    free: Set<int>,
    from: Block,
    to: Block,
) -> bool {
    &&& agree_outside(memory, after, free.union(from.extent()))
    &&& order.value(bytes_at(after, to.raw as int, HEADER_SIZE as int)) == to.size
    &&& forall|i: int|
        0 <= i < to.size && i < from.size ==> #[trigger] payload(after, to)[i] == payload(
            memory,
            from,
        )[i]
}

/// The free bytes once the heap has `block` back.
pub open spec fn released(free: Set<int>, block: Block) -> Set<int> {
    free.union(block.extent())
}

/// `live` are the blocks in use of a heap with the free bytes `free`: none of them has a free
/// byte, and no two of them share a byte.
pub open spec fn consistent(free: Set<int>, live: Set<Block>) -> bool {
    &&& forall|a: Block| #[trigger] live.contains(a) ==> a.wf() && a.extent().disjoint(free)
    &&& forall|a: Block, b: Block|
        #![trigger live.contains(a), live.contains(b)]
        live.contains(a) && live.contains(b) && a != b ==> a.extent().disjoint(b.extent())
}

/// The bytes that a heap uses of the `len` bytes of memory from `base` on: the whole machine words
/// in it.
pub open spec fn usable(base: int, len: int) -> Set<int> {
    let lo = round_up(base, word());
    span(lo, (base + len - lo) / word() * word())
}

/// The host has set up `heap` with the memory that [`CustomMemoryPoolData::init`] lists as
/// `region`, which is at `base`.
pub open spec fn set_up(heap: Heap, base: int, region: PoolRegion) -> bool {
    free_bytes(heap) == usable(base, region.len as int)
}

/// The byte at `b` belongs to a block in use.
pub open spec fn in_use(live: Set<Block>, b: int) -> bool {
    exists|a: Block| #[trigger] live.contains(a) && a.extent().contains(b)
}

/// A heap that was set up with `len` bytes at `base` has the free bytes `free` and the blocks
/// `live` in use, which do not overlap, and these account for all of its memory and for no other.
pub open spec fn accounted(base: int, len: int, free: Set<int>, live: Set<Block>) -> bool {
    &&& consistent(free, live)
    &&& forall|b: int|
        #![trigger usable(base, len).contains(b)]
        #![trigger free.contains(b)]
        #![trigger in_use(live, b)]
        usable(base, len).contains(b) <==> free.contains(b) || in_use(live, b)
}

pub(crate) proof fn lemma_taken(size: int)
    requires
        0 <= size,
    ensures
        size <= taken(size) < size + 3 * word(),
        min_hole() <= taken(size),
{
    let n = if size < min_hole() {
        min_hole()
    } else {
        size
    };
    if usize::BITS == 64 {
        assert(word() == 8);
        assert(round_up(n, 8) == (n + 7) / 8 * 8);
    } else {
        assert(word() == 4);
        assert(round_up(n, 4) == (n + 3) / 4 * 4);
    }
}

pub(crate) proof fn lemma_placement(lo: int)
    ensures
        lo <= placement(lo, ALIGNMENT as int) < lo + min_hole() + ALIGNMENT,
{
    assert(ALIGNMENT == 8);
    assert(round_up(lo + min_hole(), 8) == (lo + min_hole() + 7) / 8 * 8);
}

/// A block is taken out of free bytes.
pub(crate) proof fn lemma_first_fit_is_free(free: Set<int>, size: int, at: int)
    requires
        0 <= size,
        is_first_fit(free, size, ALIGNMENT as int, at),
    ensures
        span(at, taken(size)).subset_of(free),
{
    let (lo, hi) = choose|lo: int, hi: int|
        #[trigger] serves(free, lo, hi, size, ALIGNMENT as int) && at == placement(
            lo,
            ALIGNMENT as int,
        ) && forall|l: int, h: int| #[trigger]
            serves(free, l, h, size, ALIGNMENT as int) ==> lo <= l;
    lemma_placement(lo);
    assert forall|b: int| span(at, taken(size)).contains(b) implies free.contains(b) by {
        assert(span(lo, hi - lo).contains(b));
    }
}

/// The header of a block lies in its extent, and so does its payload.
proof fn lemma_block_in_extent(block: Block)
    ensures
        span(block.raw as int, block.spec_total()).subset_of(block.extent()),
{
    lemma_taken(block.spec_total());
}

/// Putting a block in use adds just its bytes to those in use.
proof fn lemma_in_use_after_insert(live: Set<Block>, block: Block, b: int)
    ensures
        in_use(live.insert(block), b) <==> in_use(live, b) || block.extent().contains(b),
{
    if block.extent().contains(b) {
        assert(live.insert(block).contains(block));
    }
    if in_use(live, b) {
        let a = choose|a: Block| #[trigger] live.contains(a) && a.extent().contains(b);
        assert(live.insert(block).contains(a));
    }
    if in_use(live.insert(block), b) {
        let a = choose|a: Block| #[trigger]
            live.insert(block).contains(a) && a.extent().contains(b);
        assert(a == block || live.contains(a));
    }
}

/// Header bytes that hold a size are read back as that size, whatever the byte order.
pub proof fn law_header_read_gives_back_write(
    order: ByteOrder,
    bytes: Seq<u8>,
    header: AllocationHeader,
)
    requires
        order.value(bytes) == header.size,
    ensures
        AllocationHeader::spec_read(order, bytes) == header,
{
}

/// A payload can be stored if and only if header and payload, rounded up to the alignment, do not
/// exceed `isize::MAX`.
pub proof fn law_what_is_storable(size: int)
    requires
        0 <= size,
    ensures
        storable(size) <==> round_up(HEADER_SIZE + size, ALIGNMENT as int) <= isize::MAX,
{
    reveal_with_fuel(vstd::arithmetic::power2::is_pow2, 5);
    assert(ALIGNMENT == 8);
    assert(round_up(HEADER_SIZE + size, 8) == (HEADER_SIZE + size + 7) / 8 * 8);
}

/// A block that is taken was free until then, is not free any more, and comes from the heap that
/// serves the usage: the other heap and both pools stay as they are.
pub proof fn law_taken_block_was_free(
    before: CustomMemoryPoolData,
    after: CustomMemoryPoolData,
    usage: u32,
    size: int,
    block: Block,
)
    requires
        0 <= size,
        takes_block(before, after, usage, size, Some(block)),
    ensures
        block.extent().subset_of(free_bytes(before.heap(usage))),
        block.extent().disjoint(free_bytes(after.heap(usage))),
        forall|other: u32|
            (other == ALLOC_FOR_LINEAR_MEMORY) != (usage == ALLOC_FOR_LINEAR_MEMORY)
                ==> #[trigger] after.heap(other) == before.heap(other),
        forall|other: u32| #[trigger] after.pool(other) == before.pool(other),
{
    lemma_first_fit_is_free(free_bytes(before.heap(usage)), HEADER_SIZE + size, block.raw as int);
}

/// Every address that a call is answered with is the null address or a multiple of the alignment
/// that WAMR requires.
pub proof fn law_answers_are_aligned(
    before: CustomMemoryPoolData,
    after: CustomMemoryPoolData,
    usage: u32,
    ptr: usize,
    header: AllocationHeader,
    size: int,
    action: Action,
)
    requires
        mallocs(before, after, usage, size, action) || replaces(
            before,
            after,
            usage,
            ptr,
            header,
            size,
            action,
        ) || action == frees(usage, ptr) || action == gives_back(usage, ptr, header),
    ensures
        action.spec_answer() == NULL || action.spec_answer() % ALIGNMENT as int == 0,
{
}

/// Giving a block back is answered with the null address, and so is a replacement by a block of
/// size zero, which does the same.
pub proof fn law_giving_back_answers_null(usage: u32, ptr: usize, header: AllocationHeader)
    ensures
        frees(usage, ptr).spec_answer() == NULL,
        gives_back(usage, ptr, header).spec_answer() == NULL,
{
}

/// Freeing what a request was answered with gives back the very block that the request took: the
/// header in memory leads to the address and the layout that the heap needs, and with the block
/// back the heap has the free bytes that it had before.
pub proof fn law_free_undoes_malloc(
    order: ByteOrder,
    before: CustomMemoryPoolData,
    after: CustomMemoryPoolData,
    usage: u32,
    size: int,
    block: Block,
    memory: spec_fn(int) -> u8,
    memory_after: spec_fn(int) -> u8,
)
    requires
        0 <= size,
        mallocs(before, after, usage, size, Action::Open { block }),
        opened(order, memory, memory_after, free_bytes(before.heap(usage)), block),
    ensures
        frees(usage, block.spec_ptr() as usize) matches Action::Inspect { header, .. } && header
            == block.raw,
        gives_back(usage, block.spec_ptr() as usize, header_at(order, memory_after, block.raw as int)) == (
        Action::Close { usage, block }),
        released(free_bytes(after.heap(usage)), block) == free_bytes(before.heap(usage)),
{
    law_taken_block_was_free(before, after, usage, size, block);
    law_header_read_gives_back_write(
        order,
        bytes_at(memory_after, block.raw as int, HEADER_SIZE as int),
        AllocationHeader { size: block.size },
    );
    assert(released(free_bytes(after.heap(usage)), block) =~= free_bytes(before.heap(usage)));
}

/// Equal free bytes serve a request alike: at the same address, or not at all.
pub proof fn law_first_fit_is_determined(free: Set<int>, size: int, at: int, other: int)
    requires
        is_first_fit(free, size, ALIGNMENT as int, at),
    ensures
        is_first_fit(free, size, ALIGNMENT as int, other) ==> at == other,
        !no_fit(free, size, ALIGNMENT as int),
{
}

/// Memory that was given back is used again: after a request and the release of its block, the
/// same request is served again, and with the same block.
pub proof fn law_released_memory_is_reused(
    before: CustomMemoryPoolData,
    after: CustomMemoryPoolData,
    reset: CustomMemoryPoolData,
    again: CustomMemoryPoolData,
    usage: u32,
    size: int,
    block: Block,
    action: Action,
)
    requires
        0 <= size,
        mallocs(before, after, usage, size, Action::Open { block }),
        free_bytes(reset.heap(usage)) == released(free_bytes(after.heap(usage)), block),
        mallocs(reset, again, usage, size, action),
    ensures
        action == (Action::Open { block }),
        free_bytes(again.heap(usage)) == free_bytes(after.heap(usage)),
{
    law_taken_block_was_free(before, after, usage, size, block);
    let free = free_bytes(before.heap(usage));
    assert(free_bytes(reset.heap(usage)) =~= free);
    let at = block.raw as int;
    match action {
        Action::Open { block: other } => {
            law_first_fit_is_determined(free, HEADER_SIZE + size, at, other.raw as int);
        },
        _ => {
            law_first_fit_is_determined(free, HEADER_SIZE + size, at, at);
        },
    }
}

/// Requesting and releasing again and again does not use up the pool: if the first of any number
/// of equal requests is served, and each block is given back before the next request, then all of
/// them are served, and with the same block.
pub proof fn law_repeated_requests_are_served(
    before: Seq<CustomMemoryPoolData>,
    after: Seq<CustomMemoryPoolData>,
    actions: Seq<Action>,
    usage: u32,
    size: int,
    i: int,
)
    requires
        0 <= size,
        0 <= i < actions.len(),
        before.len() == actions.len(),
        after.len() == actions.len(),
        forall|k: int|
            0 <= k < actions.len() ==> mallocs(
                before[k],
                after[k],
                usage,
                size,
                #[trigger] actions[k],
            ),
        actions[0] is Open,
        forall|k: int|
            0 < k < actions.len() && actions[k - 1] is Open ==> free_bytes(
                #[trigger] before[k].heap(usage),
            ) == released(free_bytes(after[k - 1].heap(usage)), actions[k - 1]->Open_block),
    ensures
        actions[i] == actions[0],
    decreases i,
{
    if i > 0 {
        law_repeated_requests_are_served(before, after, actions, usage, size, i - 1);
        assert(actions[i - 1] is Open);
        law_released_memory_is_reused(
            before[i - 1],
            after[i - 1],
            before[i],
            after[i],
            usage,
            size,
            actions[i - 1]->Open_block,
            actions[i],
        );
    }
}

/// Before anything is in use, there is nothing to keep apart.
pub proof fn law_no_blocks_are_apart(free: Set<int>)
    ensures
        consistent(free, Set::empty()),
{
}

/// Taking a block keeps the blocks in use apart.
pub proof fn law_malloc_keeps_blocks_apart(
    before: CustomMemoryPoolData,
    after: CustomMemoryPoolData,
    usage: u32,
    size: int,
    block: Block,
    live: Set<Block>,
)
    requires
        0 <= size,
        consistent(free_bytes(before.heap(usage)), live),
        takes_block(before, after, usage, size, Some(block)),
    ensures
        !live.contains(block),
        consistent(free_bytes(after.heap(usage)), live.insert(block)),
{
    law_taken_block_was_free(before, after, usage, size, block);
    lemma_taken(block.spec_total());
    assert(block.extent().contains(block.raw as int));
    assert forall|a: Block| #[trigger] live.contains(a) implies a.extent().disjoint(
        block.extent(),
    ) by {
        assert(a.extent().disjoint(free_bytes(before.heap(usage))));
    }
}

/// Giving a block back keeps the blocks in use apart.
pub proof fn law_release_keeps_blocks_apart(free: Set<int>, block: Block, live: Set<Block>)
    requires
        consistent(free, live),
        live.contains(block),
    ensures
        consistent(released(free, block), live.remove(block)),
{
    assert forall|a: Block| #[trigger] live.remove(block).contains(a) implies a.wf()
        && a.extent().disjoint(released(free, block)) by {
        assert(live.contains(a));
        assert(a.extent().disjoint(free));
        assert(a.extent().disjoint(block.extent()));
    }
}

/// Replacing a block keeps the blocks in use apart, and the new block does not overlap the old
/// one while the payload is copied.
pub proof fn law_realloc_keeps_blocks_apart(
    before: CustomMemoryPoolData,
    after: CustomMemoryPoolData,
    usage: u32,
    ptr: usize,
    header: AllocationHeader,
    size: int,
    from: Block,
    to: Block,
    live: Set<Block>,
)
    requires
        0 <= size,
        consistent(free_bytes(before.heap(usage)), live),
        live.contains(from),
        replaces(before, after, usage, ptr, header, size, Action::Move { usage, from, to }),
    ensures
        from.extent().disjoint(to.extent()),
        consistent(
            released(free_bytes(after.heap(usage)), from),
            live.insert(to).remove(from),
        ),
{
    law_malloc_keeps_blocks_apart(before, after, usage, size, to, live);
    law_release_keeps_blocks_apart(free_bytes(after.heap(usage)), from, live.insert(to));
}

/// A heap uses no byte outside the memory that it is set up with, and of that memory leaves out
/// less than a machine word at either end.
pub proof fn law_usable_bytes_lie_in_the_pool(base: int, len: int)
    requires
        0 <= len,
    ensures
        usable(base, len).subset_of(span(base, len)),
        forall|b: int|
            base + word() <= b + 1 && b + word() <= base + len ==> #[trigger] usable(
                base,
                len,
            ).contains(b),
{
    let lo = round_up(base, word());
    if usize::BITS == 64 {
        assert(word() == 8);
        assert(round_up(base, 8) == (base + 7) / 8 * 8);
        assert((base + len - lo) / 8 * 8 <= base + len - lo < (base + len - lo) / 8 * 8 + 8);
    } else {
        assert(word() == 4);
        assert(round_up(base, 4) == (base + 3) / 4 * 4);
        assert((base + len - lo) / 4 * 4 <= base + len - lo < (base + len - lo) / 4 * 4 + 4);
    }
}

/// A heap that is set up as [`CustomMemoryPoolData::init`] asks for has all of the pool of its
/// usage to hand out, up to a part of a machine word at either end, and nothing else.
pub proof fn law_set_up_heap_accounts_for_its_pool(
    data: CustomMemoryPoolData,
    usage: u32,
    region: PoolRegion,
    heap: Heap,
    base: int,
)
    requires
        data.region(usage) == seq![region],
        set_up(heap, base, region),
    ensures
        data.pool(usage) matches Some(pool) && region.len == pool@.len(),
        region.usage == usage,
        accounted(base, region.len as int, free_bytes(heap), Set::empty()),
{
    assert(data.region(usage)[0] == region);
    assert(data.region(usage).len() == 1);
    if let Some(pool) = data.pool(usage) {
        assert(pool.len() == pool@.len());
    }
}

/// Every free byte of a pool, and every byte of a block in use, header and payload included, lies
/// in the memory of the pool.
pub proof fn law_blocks_lie_in_their_pool(
    base: int,
    len: int,
    free: Set<int>,
    live: Set<Block>,
    block: Block,
)
    requires
        0 <= len,
        accounted(base, len, free, live),
        live.contains(block),
    ensures
        free.subset_of(span(base, len)),
        block.extent().subset_of(span(base, len)),
        base <= block.raw,
        block.spec_ptr() + block.size <= base + len,
{
    law_usable_bytes_lie_in_the_pool(base, len);
    assert forall|b: int| free.contains(b) implies span(base, len).contains(b) by {
        assert(usable(base, len).contains(b));
    }
    assert forall|b: int| block.extent().contains(b) implies span(base, len).contains(b) by {
        assert(in_use(live, b));
        assert(usable(base, len).contains(b));
    }
    lemma_block_in_extent(block);
    let total = span(block.raw as int, block.spec_total());
    assert(total.contains(block.raw as int));
    assert(total.contains(block.raw + block.spec_total() - 1));
}

/// A request keeps account of the pool: the block goes from the free bytes to those in use.
pub proof fn law_malloc_keeps_account(
    before: CustomMemoryPoolData,
    after: CustomMemoryPoolData,
    usage: u32,
    size: int,
    block: Block,
    base: int,
    len: int,
    live: Set<Block>,
)
    requires
        0 <= size,
        accounted(base, len, free_bytes(before.heap(usage)), live),
        takes_block(before, after, usage, size, Some(block)),
    ensures
        accounted(base, len, free_bytes(after.heap(usage)), live.insert(block)),
{
    law_malloc_keeps_blocks_apart(before, after, usage, size, block, live);
    law_taken_block_was_free(before, after, usage, size, block);
    let free = free_bytes(before.heap(usage));
    let free_after = free_bytes(after.heap(usage));
    let live_after = live.insert(block);
    assert forall|b: int|
        #![trigger usable(base, len).contains(b)]
        #![trigger free_after.contains(b)]
        #![trigger in_use(live_after, b)]
        usable(base, len).contains(b) <==> free_after.contains(b) || in_use(live_after, b) by {
        lemma_in_use_after_insert(live, block, b);
        assert(usable(base, len).contains(b) <==> free.contains(b) || in_use(live, b));
    }
}

/// A release keeps account of the pool: the block goes from the bytes in use to the free ones.
pub proof fn law_release_keeps_account(
    base: int,
    len: int,
    free: Set<int>,
    live: Set<Block>,
    block: Block,
)
    requires
        accounted(base, len, free, live),
        live.contains(block),
    ensures
        accounted(base, len, released(free, block), live.remove(block)),
{
    law_release_keeps_blocks_apart(free, block, live);
    let free_after = released(free, block);
    let live_after = live.remove(block);
    assert(live_after.insert(block) =~= live);
    assert forall|b: int|
        #![trigger usable(base, len).contains(b)]
        #![trigger free_after.contains(b)]
        #![trigger in_use(live_after, b)]
        usable(base, len).contains(b) <==> free_after.contains(b) || in_use(live_after, b) by {
        lemma_in_use_after_insert(live_after, block, b);
        assert(usable(base, len).contains(b) <==> free.contains(b) || in_use(live, b));
    }
}

/// A replacement keeps account of the pool.
pub proof fn law_realloc_keeps_account(
    before: CustomMemoryPoolData,
    after: CustomMemoryPoolData,
    usage: u32,
    ptr: usize,
    header: AllocationHeader,
    size: int,
    from: Block,
    to: Block,
    base: int,
    len: int,
    live: Set<Block>,
)
    requires
        0 <= size,
        accounted(base, len, free_bytes(before.heap(usage)), live),
        live.contains(from),
        replaces(before, after, usage, ptr, header, size, Action::Move { usage, from, to }),
    ensures
        accounted(
            base,
            len,
            released(free_bytes(after.heap(usage)), from),
            live.insert(to).remove(from),
        ),
{
    law_malloc_keeps_account(before, after, usage, size, to, base, len, live);
    law_release_keeps_account(base, len, free_bytes(after.heap(usage)), live.insert(to), from);
}

/// Once every block is given back, all that a heap uses of its pool is free again.
pub proof fn law_nothing_is_lost(base: int, len: int, free: Set<int>)
    requires
        accounted(base, len, free, Set::empty()),
    ensures
        free == usable(base, len),
{
    assert forall|b: int| free.contains(b) <==> usable(base, len).contains(b) by {
        assert(!in_use(Set::empty(), b));
    }
    assert(free =~= usable(base, len));
}

/// A request that is declined leaves the free bytes as they are, so the block that was to be
/// replaced stays in use.
pub proof fn law_declined_realloc_changes_nothing(
    before: CustomMemoryPoolData,
    after: CustomMemoryPoolData,
    usage: u32,
    ptr: usize,
    header: AllocationHeader,
    size: int,
    live: Set<Block>,
)
    requires
        consistent(free_bytes(before.heap(usage)), live),
        replaces(before, after, usage, ptr, header, size, Action::Decline),
    ensures
        forall|other: u32| free_bytes(#[trigger] after.heap(other)) == free_bytes(
            before.heap(other),
        ),
        consistent(free_bytes(after.heap(usage)), live),
{
}

/// A block in use keeps its header and its payload while another block is taken, replaced or
/// given back.
pub proof fn law_blocks_in_use_keep_their_bytes(
    order: ByteOrder,
    free: Set<int>,
    live: Set<Block>,
    block: Block,
    other: Block,
    to: Block,
    memory: spec_fn(int) -> u8,
    after: spec_fn(int) -> u8,
)
    requires
        consistent(free, live),
        live.contains(block),
        opened(order, memory, after, free, to) || (live.contains(other) && other != block && (closed(
            memory,
            after,
            free,
            other,
        ) || moved(order, memory, after, free, other, to))),
    ensures
        header_at(order, after, block.raw as int) == header_at(order, memory, block.raw as int),
        payload(after, block) == payload(memory, block),
{
    lemma_block_in_extent(block);
    assert forall|b: int| span(block.raw as int, block.spec_total()).contains(b) implies after(b)
        == memory(b) by {
        assert(block.extent().contains(b));
        assert(!free.contains(b));
        if live.contains(other) && other != block {
            assert(!other.extent().contains(b));
        }
    }
    assert forall|i: int| 0 <= i < block.spec_total() implies after(block.raw + i) == #[trigger]
        memory(block.raw + i) by {
        assert(span(block.raw as int, block.spec_total()).contains(block.raw + i));
    }
    assert(bytes_at(after, block.raw as int, HEADER_SIZE as int) =~= bytes_at(
        memory,
        block.raw as int,
        HEADER_SIZE as int,
    ));
    assert forall|i: int| 0 <= i < block.size implies payload(after, block)[i] == payload(
        memory,
        block,
    )[i] by {
        let k = HEADER_SIZE + i;
        assert(after(block.raw + k) == memory(block.raw + k));
        assert(block.raw + k == block.spec_ptr() + i);
    }
    assert(payload(after, block) =~= payload(memory, block));
}

/// A host that fills the new block with [`Block::fill_from`] and leaves all other bytes in use
/// alone carries out [`Action::Move`]; `before_fill` are the bytes that the new block came with.
pub proof fn law_filling_moves_the_block(
    order: ByteOrder,
    free: Set<int>,
    from: Block,
    to: Block,
    before_fill: Seq<u8>,
    memory: spec_fn(int) -> u8,
    after: spec_fn(int) -> u8,
)
    requires
        filled(
            order,
            before_fill,
            bytes_at(after, to.raw as int, to.spec_total()),
            to.size as int,
            bytes_at(memory, from.raw as int, from.spec_total()),
        ),
        agree_outside(memory, after, free.union(from.extent())),
    ensures
        moved(order, memory, after, free, from, to),
{
    let to_bytes = bytes_at(after, to.raw as int, to.spec_total());
    let from_bytes = bytes_at(memory, from.raw as int, from.spec_total());
    let header_bytes = bytes_at(after, to.raw as int, HEADER_SIZE as int);
    assert forall|i: int| 0 <= i < HEADER_SIZE implies header_bytes[i] == to_bytes[i] by {}
    assert(order.value(header_bytes) == order.value(to_bytes));
    assert forall|i: int| 0 <= i < to.size && i < from.size implies #[trigger] payload(
        after,
        to,
    )[i] == payload(memory, from)[i] by {
        let k = HEADER_SIZE + i;
        assert(to_bytes[k] == from_bytes[k]);
        assert(to.raw + k == to.spec_ptr() + i);
        assert(from.raw + k == from.spec_ptr() + i);
    }
}

/// Replacing a block keeps the payload, up to the smaller of the two sizes, and the new block can
/// be given back in turn: its header tells its size.
pub proof fn law_realloc_keeps_the_payload(
    order: ByteOrder,
    before: CustomMemoryPoolData,
    after: CustomMemoryPoolData,
    usage: u32,
    ptr: usize,
    header: AllocationHeader,
    size: int,
    from: Block,
    to: Block,
    memory: spec_fn(int) -> u8,
    memory_after: spec_fn(int) -> u8,
)
    requires
        0 <= size,
        replaces(before, after, usage, ptr, header, size, Action::Move { usage, from, to }),
        moved(order, memory, memory_after, free_bytes(before.heap(usage)), from, to),
    ensures
        ({
            let kept = if from.size < to.size {
                from.size as int
            } else {
                to.size as int
            };
            payload(memory_after, to).take(kept) == payload(memory, from).take(kept)
        }),
        to.size == size,
        gives_back(usage, to.spec_ptr() as usize, header_at(order, memory_after, to.raw as int)) == (
        Action::Close { usage, block: to }),
{
    let kept = if from.size < to.size {
        from.size as int
    } else {
        to.size as int
    };
    assert(payload(memory_after, to).take(kept) =~= payload(memory, from).take(kept));
    law_header_read_gives_back_write(
        order,
        bytes_at(memory_after, to.raw as int, HEADER_SIZE as int),
        AllocationHeader { size: to.size },
    );
}

/// A pool in which nothing is in use serves a request if and only if the block ends where the
/// pool does or leaves enough behind it to be a hole.  No other rounding is applied to the
/// request.
pub proof fn law_unused_pool_serves_what_fits(
    before: CustomMemoryPoolData,
    after: CustomMemoryPoolData,
    usage: u32,
    lo: int,
    len: int,
    size: int,
    action: Action,
)
    requires
        0 <= size,
        0 < len,
        free_bytes(before.heap(usage)) == span(lo, len),
        mallocs(before, after, usage, size, action),
    ensures
        action is Open <==> storable(size) && ({
            let end = placement(lo, ALIGNMENT as int) + taken(HEADER_SIZE + size);
            end == lo + len || end + min_hole() <= lo + len
        }),
        action matches Action::Open { block } ==> block.raw == placement(lo, ALIGNMENT as int),
        lo <= placement(lo, ALIGNMENT as int) < lo + min_hole() + ALIGNMENT,
        lo % ALIGNMENT as int == 0 ==> placement(lo, ALIGNMENT as int) == lo,
        HEADER_SIZE + size <= taken(HEADER_SIZE + size) < HEADER_SIZE + size + 3 * word(),
{
    let free = span(lo, len);
    let total = HEADER_SIZE + size;
    let end = placement(lo, ALIGNMENT as int) + taken(total);
    lemma_taken(total);
    lemma_placement(lo);
    assert forall|l: int, h: int| #[trigger] serves(free, l, h, total, ALIGNMENT as int) implies l
        == lo && h == lo + len by {
        assert(span(l, h - l).contains(l));
        assert(span(l, h - l).contains(h - 1));
        assert(free.contains(l) && free.contains(h - 1));
        assert(!free.contains(l - 1) && !free.contains(h));
    }
    assert(is_hole(free, lo, lo + len));
    if end == lo + len || end + min_hole() <= lo + len {
        assert(serves(free, lo, lo + len, total, ALIGNMENT as int));
    }
}

/// A request is served whenever some hole is larger than the payload by two headers and seven
/// words: sizes are not rounded up to anything that grows with them.
pub proof fn law_roomy_hole_serves(
    before: CustomMemoryPoolData,
    after: CustomMemoryPoolData,
    usage: u32,
    lo: int,
    hi: int,
    size: int,
    action: Action,
)
    requires
        0 <= size,
        storable(size),
        is_hole(free_bytes(before.heap(usage)), lo, hi),
        hi - lo >= size + 2 * HEADER_SIZE + 7 * word(),
        mallocs(before, after, usage, size, action),
    ensures
        action is Open,
{
    lemma_taken(HEADER_SIZE + size);
    lemma_placement(lo);
    assert(serves(
        free_bytes(before.heap(usage)),
        lo,
        hi,
        HEADER_SIZE + size,
        ALIGNMENT as int,
    ));
}

/// The allocation mode and the running mode are selected independently of each other, in either
/// order, and the last selection of each counts.
pub proof fn law_builder_selections_are_independent(
    builder: RuntimeBuilder,
    mem_alloc_type: MemAllocType,
    other_mem_alloc_type: MemAllocType,
    running_mode: RunningMode,
    other_running_mode: RunningMode,
)
    ensures
        builder.with_mem_alloc_type(mem_alloc_type).with_running_mode(running_mode)
            == builder.with_running_mode(running_mode).with_mem_alloc_type(mem_alloc_type),
        builder.with_mem_alloc_type(other_mem_alloc_type).with_mem_alloc_type(mem_alloc_type)
            == builder.with_mem_alloc_type(mem_alloc_type),
        builder.with_running_mode(other_running_mode).with_running_mode(running_mode)
            == builder.with_running_mode(running_mode),
{
}

} // verus!
