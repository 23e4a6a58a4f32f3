//! What the allocation calls do, seen from outside.
//!
//! Each law here speaks of calls that have returned: `call_ensures(f, arguments, result)` says
//! that `f` was called with the arguments and returned the result.  The laws then say, in terms of
//! the arguments, the results and the memory alone, what must hold of them, and how several calls
//! relate.
use crate::block::{
    get_header, is_storable, AllocationHeader, Block, ByteOrder, ALIGNMENT, HEADER_SIZE, NULL,
};
use crate::heap::{
    free_bytes, is_first_fit, is_hole, min_hole, placement, serves, span, taken, word,
};
use crate::laws::{
    bytes_at, consistent, law_first_fit_is_determined, law_malloc_keeps_blocks_apart,
    law_release_keeps_blocks_apart, law_what_is_storable, lemma_first_fit_is_free,
    lemma_placement, lemma_taken, released,
};
use crate::pool::{
    allocate, free_func, malloc_func, realloc_func, resume, takes_block, Action,
    CustomMemoryPoolData, Pending, PoolRegion, ALLOC_FOR_LINEAR_MEMORY, ALLOC_FOR_RUNTIME,
};
use linked_list_allocator::Heap;
use vstd::prelude::*;

verus! {

/// The free bytes of the pool for `usage`: linear memory has a pool of its own, every other usage
/// has the other one.
pub open spec fn free_for(data: CustomMemoryPoolData, usage: u32) -> Set<int> {
    if usage == ALLOC_FOR_LINEAR_MEMORY {
        free_bytes(data.linear_memory_allocator)
    } else {
        free_bytes(data.runtime_memory_allocator)
    }
}

/// Between `before` and `after` nothing but the heap for `usage` has changed.
pub open spec fn only_heap_changed(
    before: CustomMemoryPoolData,
    after: CustomMemoryPoolData,
    usage: u32,
) -> bool {
    &&& after.linear_memory_pool == before.linear_memory_pool
    &&& after.runtime_memory_pool == before.runtime_memory_pool
    &&& usage == ALLOC_FOR_LINEAR_MEMORY ==> after.runtime_memory_allocator
        == before.runtime_memory_allocator
    &&& usage != ALLOC_FOR_LINEAR_MEMORY ==> after.linear_memory_allocator
        == before.linear_memory_allocator
}

/// `block` is a new block for a payload of `size` bytes: its bytes were free in `before` and are,
/// alone, no longer free in `after`.
pub open spec fn is_new_block(
    before: CustomMemoryPoolData,
    after: CustomMemoryPoolData,
    usage: u32,
    size: int,
    block: Block,
) -> bool {
    &&& block.size == size
    &&& block.raw != NULL
    &&& block.raw as int % ALIGNMENT as int == 0
    &&& block.raw + HEADER_SIZE + size <= usize::MAX
    &&& HEADER_SIZE + size <= taken(HEADER_SIZE + size)
    &&& span(block.raw as int, taken(HEADER_SIZE + size)).subset_of(free_for(before, usage))
    &&& free_for(after, usage) == free_for(before, usage).difference(
        span(block.raw as int, taken(HEADER_SIZE + size)),
    )
}

/// `regions` lists `pool` for `usage` once and whole if there is such a pool, else not at all.
pub open spec fn lists_pool(
    regions: Seq<PoolRegion>,
    usage: u32,
    pool: Option<Box<[u8]>>,
) -> bool {
    match pool {
        Some(memory) => exists|i: int|
            {
                &&& 0 <= i < regions.len()
                &&& #[trigger] regions[i].usage == usage
                &&& regions[i].len == memory@.len()
                &&& forall|j: int|
                    0 <= j < regions.len() && #[trigger] regions[j].usage == usage ==> j == i
            },
        None => forall|j: int| 0 <= j < regions.len() ==> #[trigger] regions[j].usage != usage,
    }
}

/// The free run that `[lo, hi)` is part of starts somewhere.
proof fn lemma_run_start(free: Set<int>, lo: int, least: int) -> (start: int)
    requires
        forall|b: int| #[trigger] free.contains(b) ==> least <= b,
        least <= lo,
    ensures
        start <= lo,
        span(start, lo - start).subset_of(free),
        !free.contains(start - 1),
    decreases lo - least,
{
    if free.contains(lo - 1) {
        let start = lemma_run_start(free, lo - 1, least);
        assert forall|b: int| span(start, lo - start).contains(b) implies free.contains(b) by {
            assert(b == lo - 1 || span(start, lo - 1 - start).contains(b));
        }
        start
    } else {
        lo
    }
}

/// The free run that `[lo, hi)` is part of ends somewhere.
proof fn lemma_run_end(free: Set<int>, hi: int, limit: int) -> (end: int)
    requires
        forall|b: int| #[trigger] free.contains(b) ==> b < limit,
        hi <= limit,
    ensures
        hi <= end,
        span(hi, end - hi).subset_of(free),
        !free.contains(end),
    decreases limit - hi,
{
    if free.contains(hi) {
        let end = lemma_run_end(free, hi + 1, limit);
        assert forall|b: int| span(hi, end - hi).contains(b) implies free.contains(b) by {
            assert(b == hi || span(hi + 1, end - hi - 1).contains(b));
        }
        end
    } else {
        hi
    }
}

/// A free run with room for a payload of `size` bytes and the slack around it lies in a hole that
/// serves the request.
proof fn lemma_room_serves(free: Set<int>, least: int, limit: int, lo: int, size: int) -> (hole: (
    int,
    int,
))
    requires
        0 <= size,
        forall|b: int| #[trigger] free.contains(b) ==> least <= b < limit,
        span(lo, size + 2 * HEADER_SIZE + 7 * word()).subset_of(free),
    ensures
        hole.0 <= lo,
        serves(free, hole.0, hole.1, HEADER_SIZE + size, ALIGNMENT as int),
{
    let hi = lo + size + 2 * HEADER_SIZE + 7 * word();
    let run = span(lo, hi - lo);
    assert(run.contains(lo) && run.contains(hi - 1));
    assert(free.contains(lo) && free.contains(hi - 1));
    let start = lemma_run_start(free, lo, least);
    let end = lemma_run_end(free, hi, limit);
    assert forall|b: int| span(start, end - start).contains(b) implies free.contains(b) by {
        assert(span(start, lo - start).contains(b) || run.contains(b) || span(
            hi,
            end - hi,
        ).contains(b));
    }
    assert(is_hole(free, start, end));
    lemma_taken(HEADER_SIZE + size);
    lemma_placement(start);
    (start, end)
}

/// Taking a block, in terms of the block and the free bytes.
proof fn lemma_takes_block(
    before: CustomMemoryPoolData,
    after: CustomMemoryPoolData,
    usage: u32,
    size: int,
    block: Option<Block>,
)
    requires
        0 <= size,
        takes_block(before, after, usage, size, block),
    ensures
        only_heap_changed(before, after, usage),
        block matches Some(block) ==> is_new_block(before, after, usage, size, block),
        block is None ==> free_for(after, usage) == free_for(before, usage),
{
    lemma_taken(HEADER_SIZE + size);
    if let Some(block) = block {
        lemma_first_fit_is_free(free_for(before, usage), HEADER_SIZE + size, block.raw as int);
    }
}

/// A request is answered with a new block of exactly the size that was asked for, in the pool for
/// its usage, aligned and with room for the header, or it is declined; then no free byte has
/// changed.
pub proof fn law_malloc_opens_what_was_asked_for(
    usage: u32,
    data: &mut CustomMemoryPoolData,
    size: u32,
    action: Action,
)
    requires
        call_ensures(malloc_func, (usage, Some(data), size), action),
    ensures
        action is Open || action is Decline,
        only_heap_changed(*old(data), *final(data), usage),
        action matches Action::Open { block } ==> {
            &&& block.size == size
            &&& is_new_block(*old(data), *final(data), usage, size as int, block)
        },
        action is Decline ==> free_for(*final(data), usage) == free_for(*old(data), usage),
{
    match action {
        Action::Open { block } => {
            lemma_takes_block(*data, *final(data), usage, size as int, Some(block));
        },
        _ => {
            lemma_takes_block(*data, *final(data), usage, size as int, None);
        },
    }
}

/// The same of [`allocate`], for any size.
pub proof fn law_allocate_takes_what_was_asked_for(
    data: &mut CustomMemoryPoolData,
    usage: u32,
    size: usize,
    block: Option<Block>,
)
    requires
        call_ensures(allocate, (data, usage, size), block),
    ensures
        only_heap_changed(*old(data), *final(data), usage),
        block matches Some(block) ==> {
            &&& block.size == size
            &&& is_new_block(*old(data), *final(data), usage, size as int, block)
        },
        block is None ==> free_for(*final(data), usage) == free_for(*old(data), usage),
{
    lemma_takes_block(*data, *final(data), usage, size as int, block);
}

/// A request is served whenever the pool for its usage has a free run with room for the payload
/// and a fixed slack, wherever that is, and the block does not start behind the first such run.
/// Only a payload that no layout goes with is excepted.
pub proof fn law_malloc_serves_where_there_is_room(
    usage: u32,
    data: &mut CustomMemoryPoolData,
    size: u32,
    action: Action,
    least: int,
    limit: int,
    lo: int,
)
    requires
        call_ensures(malloc_func, (usage, Some(data), size), action),
        forall|b: int| #[trigger]
            free_for(*data, usage).contains(b) ==> least <= b < limit,
        span(lo, size + 2 * HEADER_SIZE + 7 * word()).subset_of(free_for(*data, usage)),
        HEADER_SIZE + size + 7 <= isize::MAX,
    ensures
        action matches Action::Open { block } && block.raw < lo + min_hole() + ALIGNMENT,
{
    let free = free_for(*data, usage);
    let (start, end) = lemma_room_serves(free, least, limit, lo, size as int);
    law_what_is_storable(size as int);
    if let Action::Open { block } = action {
        lemma_block_not_behind(free, HEADER_SIZE + size, block.raw as int, start, end);
    }
}

/// The same of [`allocate`], for any size.
pub proof fn law_allocate_serves_where_there_is_room(
    data: &mut CustomMemoryPoolData,
    usage: u32,
    size: usize,
    block: Option<Block>,
    least: int,
    limit: int,
    lo: int,
)
    requires
        call_ensures(allocate, (data, usage, size), block),
        forall|b: int| #[trigger]
            free_for(*data, usage).contains(b) ==> least <= b < limit,
        span(lo, size + 2 * HEADER_SIZE + 7 * word()).subset_of(free_for(*data, usage)),
        HEADER_SIZE + size + 7 <= isize::MAX,
    ensures
        block matches Some(block) && block.raw < lo + min_hole() + ALIGNMENT,
{
    let free = free_for(*data, usage);
    let (start, end) = lemma_room_serves(free, least, limit, lo, size as int);
    law_what_is_storable(size as int);
    if let Some(block) = block {
        lemma_block_not_behind(free, HEADER_SIZE + size, block.raw as int, start, end);
    }
}

/// A first fit is not behind any hole that serves.
proof fn lemma_block_not_behind(free: Set<int>, total: int, at: int, start: int, end: int)
    requires
        is_first_fit(free, total, ALIGNMENT as int, at),
        serves(free, start, end, total, ALIGNMENT as int),
    ensures
        at < start + min_hole() + ALIGNMENT,
{
    let (lo, hi) = choose|lo: int, hi: int|
        #[trigger] serves(free, lo, hi, total, ALIGNMENT as int) && at
            == placement(lo, ALIGNMENT as int) && forall|l: int, h: int| #[trigger]
            serves(free, l, h, total, ALIGNMENT as int) ==> lo <= l;
    lemma_placement(lo);
}

/// A payload that no layout goes with is not stored, whatever the pool has to offer.
pub proof fn law_oversized_requests_are_declined(
    data: &mut CustomMemoryPoolData,
    usage: u32,
    size: usize,
    block: Option<Block>,
)
    requires
        call_ensures(allocate, (data, usage, size), block),
        HEADER_SIZE + size > isize::MAX - 7,
    ensures
        block is None,
{
    law_what_is_storable(size as int);
}

/// Without pools every call is declined.
pub proof fn law_calls_without_pools_are_declined(
    usage: u32,
    mmaped: bool,
    ptr: usize,
    size: u32,
    malloc: Action,
    free: Action,
    realloc: Action,
)
    requires
        call_ensures(malloc_func, (usage, None::<&mut CustomMemoryPoolData>, size), malloc),
        call_ensures(free_func, (usage, None::<&mut CustomMemoryPoolData>, ptr), free),
        call_ensures(
            realloc_func,
            (usage, mmaped, None::<&mut CustomMemoryPoolData>, ptr, size),
            realloc,
        ),
    ensures
        malloc is Decline,
        free is Decline,
        realloc is Decline,
{
}

/// Freeing the null address does nothing.
pub proof fn law_free_of_null_does_nothing(
    usage: u32,
    data: &mut CustomMemoryPoolData,
    action: Action,
)
    requires
        call_ensures(free_func, (usage, Some(data), NULL), action),
    ensures
        action is Decline,
        *final(data) == *old(data),
{
}

/// The word that a header is written as is read back as the same header, in the bytes that the
/// standard representation of the size has in either byte order, and nothing else is written.
pub proof fn law_header_is_read_back(
    header: AllocationHeader,
    order: ByteOrder,
    slot: &mut [u8],
    bytes: &[u8],
    read: AllocationHeader,
)
    requires
        call_ensures(AllocationHeader::write, (&header, order, slot), ()),
        call_ensures(AllocationHeader::read, (order, bytes), read),
        old(slot)@.len() >= HEADER_SIZE,
        bytes@.len() >= HEADER_SIZE,
        forall|i: int| 0 <= i < HEADER_SIZE ==> #[trigger] bytes@[i] == final(slot)@[i],
    ensures
        read == header,
        final(slot)@.len() == old(slot)@.len(),
        forall|i: int|
            word() <= i < old(slot)@.len() ==> #[trigger] final(slot)@[i] == old(slot)@[i],
{
    assert forall|i: int| word() <= i < old(slot)@.len() implies #[trigger] final(slot)@[i]
        == old(slot)@[i] by {
        assert(final(slot)@.skip(word())[i - word()] == old(slot)@.skip(word())[i - word()]);
    }
    assert(order.value(bytes@) == order.value(final(slot)@));
}

/// The bytes of the lower half of a number.
proof fn lemma_bytes_of_half(n: int, b0: int, b1: int, b2: int, b3: int, rest: int)
    requires
        0 <= b0 < 0x100,
        0 <= b1 < 0x100,
        0 <= b2 < 0x100,
        0 <= b3 < 0x100,
        0 <= rest,
        n == b0 + 0x100 * b1 + 0x1_0000 * b2 + 0x100_0000 * b3 + 0x1_0000_0000 * rest,
    ensures
        n % 0x100 == b0,
        n / 0x100 % 0x100 == b1,
        n / 0x1_0000 % 0x100 == b2,
        n / 0x100_0000 % 0x100 == b3,
        n / 0x1_0000_0000 == rest,
{
    assert(n / 0x100 == b1 + 0x100 * b2 + 0x1_0000 * b3 + 0x100_0000 * rest);
    assert(n / 0x1_0000 == b2 + 0x100 * b3 + 0x1_0000 * rest);
    assert(n / 0x100_0000 == b3 + 0x100 * rest);
}

proof fn lemma_div_of_div(n: int, a: int, b: int)
    requires
        0 <= n,
        0 < a,
        0 < b,
    ensures
        n / (a * b) == n / a / b,
{
    vstd::arithmetic::div_mod::lemma_div_denominator(n, a, b);
}

/// A header stands in memory as the machine keeps a `usize`: on a little-endian machine byte `i`
/// is the byte of significance `i`, on a big-endian machine the bytes are the other way round.
pub proof fn law_header_bytes(
    header: AllocationHeader,
    order: ByteOrder,
    slot: &mut [u8],
)
    requires
        call_ensures(AllocationHeader::write, (&header, order, slot), ()),
        old(slot)@.len() >= HEADER_SIZE,
    ensures
        ({
            let byte = |i: int|
                if order is Little {
                    final(slot)@[i] as int
                } else {
                    final(slot)@[word() - 1 - i] as int
                };
            &&& byte(0) == header.size as int % 0x100
            &&& byte(1) == header.size as int / 0x100 % 0x100
            &&& byte(2) == header.size as int / 0x1_0000 % 0x100
            &&& byte(3) == header.size as int / 0x100_0000 % 0x100
            &&& word() == 8 ==> {
                &&& byte(4) == header.size as int / 0x1_0000_0000 % 0x100
                &&& byte(5) == header.size as int / 0x100_0000_0000 % 0x100
                &&& byte(6) == header.size as int / 0x1_0000_0000_0000 % 0x100
                &&& byte(7) == header.size as int / 0x100_0000_0000_0000 % 0x100
            }
        }),
{
    assert(word() == 4 || word() == 8);
    let b = |i: int| final(slot)@[order.spec_position(i)] as int;
    let high = if word() == 8 {
        b(4) + 0x100 * b(5) + 0x1_0000 * b(6) + 0x100_0000 * b(7)
    } else {
        0
    };
    let low = b(0) + 0x100 * b(1) + 0x1_0000 * b(2) + 0x100_0000 * b(3);
    assert(header.size == low + 0x1_0000_0000 * high);
    lemma_bytes_of_half(header.size as int, b(0), b(1), b(2), b(3), high);
    if word() == 8 {
        let size = header.size as int;
        lemma_bytes_of_half(high, b(4), b(5), b(6), b(7), 0);
        assert(size / 0x1_0000_0000 == high);
        lemma_div_of_div(size, 0x1_0000_0000, 0x100);
        lemma_div_of_div(size, 0x1_0000_0000, 0x1_0000);
        lemma_div_of_div(size, 0x1_0000_0000, 0x100_0000);
    }
}

/// The addresses and sizes of a block: the payload follows the header, and header and payload
/// together are what the heap is asked for and is given back.
pub proof fn law_payload_follows_the_header(block: Block, ptr: usize, total: usize, header: usize)
    requires
        call_ensures(Block::ptr, (&block,), ptr),
        call_ensures(Block::total, (&block,), total),
        ptr >= HEADER_SIZE,
        call_ensures(get_header, (ptr,), header),
    ensures
        ptr == block.raw + HEADER_SIZE,
        total == HEADER_SIZE + block.size,
        header == block.raw,
{
}

/// Which payloads can be stored: those that, with the header and rounded up to the alignment, do
/// not exceed `isize::MAX`.
pub proof fn law_storable_sizes(size: usize, ok: bool)
    requires
        call_ensures(is_storable, (size,), ok),
    ensures
        ok <==> HEADER_SIZE + size + 7 <= isize::MAX,
{
    law_what_is_storable(size as int);
}

/// A call is answered with the payload of the block that it took, and with the null address if it
/// took none.
pub proof fn law_answers(action: Action, ptr: usize)
    requires
        call_ensures(Action::answer, (&action,), ptr),
    ensures
        action matches Action::Open { block } ==> ptr == block.raw + HEADER_SIZE,
        action matches Action::Move { to, .. } ==> ptr == to.raw + HEADER_SIZE,
        action is Decline || action is Inspect || action is Close ==> ptr == NULL,
{
}

/// The header of a block that is in memory leads the read to the size that was written.
proof fn lemma_read_of_memory(
    order: ByteOrder,
    memory: spec_fn(int) -> u8,
    raw: int,
    size: usize,
    bytes: &[u8],
    header: AllocationHeader,
)
    requires
        order.value(bytes_at(memory, raw, HEADER_SIZE as int)) == size,
        bytes@ == bytes_at(memory, raw, HEADER_SIZE as int),
        call_ensures(AllocationHeader::read, (order, bytes), header),
    ensures
        header.size == size,
{
}

/// Freeing what a request was answered with, carried through from the call to the action: the host
/// is asked for the header of the very block that the request took, and with the header that was
/// written there it is told to give that block, with its whole size, back to the heap for the
/// usage of the call.  The pools are not touched by the decision, whatever has become of them in
/// the meantime.
pub proof fn law_free_gives_back_what_malloc_took(
    order: ByteOrder,
    usage: u32,
    size: u32,
    at_malloc: &mut CustomMemoryPoolData,
    taken_action: Action,
    ptr: usize,
    slot: &mut [u8],
    at_free: &mut CustomMemoryPoolData,
    asked: Action,
    memory: spec_fn(int) -> u8,
    bytes: &[u8],
    header: AllocationHeader,
    at_resume: &mut CustomMemoryPoolData,
    action: Action,
)
    requires
        call_ensures(malloc_func, (usage, Some(at_malloc), size), taken_action),
        taken_action is Open,
        call_ensures(
            AllocationHeader::write,
            (&AllocationHeader { size: taken_action->Open_block.size }, order, slot),
            (),
        ),
        old(slot)@.len() == HEADER_SIZE,
        final(slot)@ == bytes_at(
            memory,
            taken_action->Open_block.raw as int,
            HEADER_SIZE as int,
        ),
        call_ensures(Action::answer, (&taken_action,), ptr),
        call_ensures(free_func, (usage, Some(at_free), ptr), asked),
        bytes@ == bytes_at(memory, asked->header as int, HEADER_SIZE as int),
        call_ensures(AllocationHeader::read, (order, bytes), header),
        call_ensures(resume, (at_resume, asked->pending, header), action),
    ensures
        asked is Inspect,
        asked->header == taken_action->Open_block.raw,
        asked->pending == (Pending::Free { usage, ptr }),
        action is Close,
        action->Close_usage == usage,
        action->Close_block.raw == ptr - HEADER_SIZE,
        action->Close_block.size == size,
        action->Close_block == taken_action->Open_block,
        *final(at_free) == *old(at_free),
        *final(at_resume) == *old(at_resume),
{
    let block = taken_action->Open_block;
    law_malloc_opens_what_was_asked_for(usage, at_malloc, size, taken_action);
    law_what_is_storable(size as int);
    lemma_read_of_memory(order, memory, block.raw as int, block.size, bytes, header);
}

/// What a free call leaves pending is the free of its own usage and address, for every address.
pub proof fn law_free_asks_for_the_header(
    usage: u32,
    data: &mut CustomMemoryPoolData,
    ptr: usize,
    asked: Action,
)
    requires
        ptr > HEADER_SIZE,
        call_ensures(free_func, (usage, Some(data), ptr), asked),
    ensures
        asked is Inspect,
        asked->header + HEADER_SIZE == ptr,
        asked->pending matches Pending::Free { usage: u, ptr: p } && u == usage && p == ptr,
        *final(data) == *old(data),
{
}

/// A pending free with a header gives back the block of that size in front of the address, to the
/// heap for the usage; only a size that no layout goes with is left alone.
pub proof fn law_pending_free_gives_back(
    usage: u32,
    ptr: usize,
    data: &mut CustomMemoryPoolData,
    header: AllocationHeader,
    action: Action,
)
    requires
        ptr > HEADER_SIZE,
        call_ensures(resume, (data, Pending::Free { usage, ptr }, header), action),
    ensures
        *final(data) == *old(data),
        HEADER_SIZE + header.size + 7 <= isize::MAX ==> {
            &&& action is Close
            &&& action->Close_usage == usage
            &&& action->Close_block.raw + HEADER_SIZE == ptr
            &&& action->Close_block.size == header.size
        },
        HEADER_SIZE + header.size + 7 > isize::MAX ==> action is Decline,
{
    law_what_is_storable(header.size as int);
}

/// Replacing the null address is a request for a new block: both calls on equal pools take the
/// same block or are both declined, and leave the same bytes free.
pub proof fn law_realloc_of_null_is_malloc(
    usage: u32,
    mmaped: bool,
    size: u32,
    replacing: &mut CustomMemoryPoolData,
    replaced: Action,
    requesting: &mut CustomMemoryPoolData,
    requested: Action,
)
    requires
        call_ensures(realloc_func, (usage, mmaped, Some(replacing), NULL, size), replaced),
        call_ensures(malloc_func, (usage, Some(requesting), size), requested),
        *replacing == *requesting,
    ensures
        replaced == requested,
        replaced is Open || replaced is Decline,
        free_for(*final(replacing), usage) == free_for(*final(requesting), usage),
        only_heap_changed(*old(replacing), *final(replacing), usage),
        replaced matches Action::Open { block } ==> is_new_block(
            *old(replacing),
            *final(replacing),
            usage,
            size as int,
            block,
        ),
{
    law_malloc_opens_what_was_asked_for(usage, requesting, size, requested);
    let free = free_for(*requesting, usage);
    let total = HEADER_SIZE + size;
    match replaced {
        Action::Open { block } => {
            lemma_takes_block(*replacing, *final(replacing), usage, size as int, Some(block));
            law_first_fit_is_determined(free, total, block.raw as int, block.raw as int);
            if let Action::Open { block: other } = requested {
                law_first_fit_is_determined(free, total, block.raw as int, other.raw as int);
            }
        },
        _ => {
            lemma_takes_block(*replacing, *final(replacing), usage, size as int, None);
            if let Action::Open { block: other } = requested {
                law_first_fit_is_determined(free, total, other.raw as int, other.raw as int);
            }
        },
    }
}

/// Replacing a block by one of size zero is freeing it: both calls ask for the same.
pub proof fn law_realloc_to_zero_is_free(
    usage: u32,
    mmaped: bool,
    ptr: usize,
    replacing: &mut CustomMemoryPoolData,
    replaced: Action,
    freeing: &mut CustomMemoryPoolData,
    freed: Action,
)
    requires
        ptr > HEADER_SIZE,
        call_ensures(realloc_func, (usage, mmaped, Some(replacing), ptr, 0u32), replaced),
        call_ensures(free_func, (usage, Some(freeing), ptr), freed),
    ensures
        replaced == freed,
        replaced is Inspect,
        replaced->pending == (Pending::Free { usage, ptr }),
        *final(replacing) == *old(replacing),
{
}

/// A pending replacement with a header moves the block of that size in front of the address to a
/// new block of exactly the pending size, both of the heap for the usage, or it is declined and no
/// free byte has changed.  A size in the header that no layout goes with is left alone.
pub proof fn law_pending_realloc_moves(
    usage: u32,
    ptr: usize,
    size: u32,
    data: &mut CustomMemoryPoolData,
    header: AllocationHeader,
    action: Action,
)
    requires
        ptr > HEADER_SIZE,
        call_ensures(resume, (data, Pending::Realloc { usage, ptr, size }, header), action),
    ensures
        action is Move || action is Decline,
        action is Move ==> {
            &&& action->Move_usage == usage
            &&& action->from.raw + HEADER_SIZE == ptr
            &&& action->from.size == header.size
            &&& action->to.size == size
            &&& is_new_block(*old(data), *final(data), usage, size as int, action->to)
        },
        only_heap_changed(*old(data), *final(data), usage),
        action is Decline ==> free_for(*final(data), usage) == free_for(*old(data), usage),
        HEADER_SIZE + header.size + 7 > isize::MAX ==> action is Decline,
        HEADER_SIZE + header.size + 7 > isize::MAX ==> *final(data) == *old(data),
{
    law_what_is_storable(header.size as int);
    if let Action::Move { to, .. } = action {
        lemma_takes_block(*data, *final(data), usage, size as int, Some(to));
    } else if HEADER_SIZE + header.size + 7 <= isize::MAX {
        lemma_takes_block(*data, *final(data), usage, size as int, None);
    }
}

/// Replacing a block, carried through from the call to the action: if the block `block` has its
/// payload at `ptr` and its header in memory, then a replacement that is served moves exactly that
/// block, with its address and its whole size, within the heap for the usage, to a new block of
/// exactly the size that was asked for.  One that is not served leaves the free bytes alone.
pub proof fn law_realloc_moves_the_block_at_the_address(
    order: ByteOrder,
    usage: u32,
    mmaped: bool,
    ptr: usize,
    size: u32,
    block: Block,
    at_realloc: &mut CustomMemoryPoolData,
    asked: Action,
    memory: spec_fn(int) -> u8,
    bytes: &[u8],
    header: AllocationHeader,
    at_resume: &mut CustomMemoryPoolData,
    action: Action,
)
    requires
        block.raw != NULL,
        ptr == block.raw + HEADER_SIZE,
        order.value(bytes_at(memory, block.raw as int, HEADER_SIZE as int)) == block.size,
        size != 0,
        call_ensures(realloc_func, (usage, mmaped, Some(at_realloc), ptr, size), asked),
        bytes@ == bytes_at(memory, asked->header as int, HEADER_SIZE as int),
        call_ensures(AllocationHeader::read, (order, bytes), header),
        call_ensures(resume, (at_resume, asked->pending, header), action),
    ensures
        asked is Inspect,
        asked->header == block.raw,
        asked->pending == (Pending::Realloc { usage, ptr, size }),
        *final(at_realloc) == *old(at_realloc),
        action is Move || action is Decline,
        action is Move ==> {
            &&& action->Move_usage == usage
            &&& action->from.raw == block.raw
            &&& action->from.size == block.size
            &&& action->to.size == size
            &&& is_new_block(*old(at_resume), *final(at_resume), usage, size as int, action->to)
        },
        only_heap_changed(*old(at_resume), *final(at_resume), usage),
        action is Decline ==> free_for(*final(at_resume), usage) == free_for(
            *old(at_resume),
            usage,
        ),
        HEADER_SIZE + block.size + 7 > isize::MAX ==> action is Decline,
{
    lemma_read_of_memory(order, memory, block.raw as int, block.size, bytes, header);
    law_pending_realloc_moves(usage, ptr, size, at_resume, header, action);
}

/// Replacing a block frees that block and nothing else: if `block` is in use, has its payload at
/// `ptr` and its header in memory, then, once a served replacement has given back what it was told
/// to, the free bytes are those that were free before, without the bytes of the new block and with
/// all the bytes of `block`.  The blocks in use stay apart, and the two blocks do not overlap while
/// the payload is copied.
pub proof fn law_realloc_frees_the_block_at_the_address(
    order: ByteOrder,
    usage: u32,
    mmaped: bool,
    ptr: usize,
    size: u32,
    block: Block,
    at_realloc: &mut CustomMemoryPoolData,
    asked: Action,
    memory: spec_fn(int) -> u8,
    bytes: &[u8],
    header: AllocationHeader,
    at_resume: &mut CustomMemoryPoolData,
    action: Action,
    live: Set<Block>,
)
    requires
        consistent(free_for(*at_resume, usage), live),
        live.contains(block),
        ptr == block.raw + HEADER_SIZE,
        order.value(bytes_at(memory, block.raw as int, HEADER_SIZE as int)) == block.size,
        size != 0,
        call_ensures(realloc_func, (usage, mmaped, Some(at_realloc), ptr, size), asked),
        bytes@ == bytes_at(memory, asked->header as int, HEADER_SIZE as int),
        call_ensures(AllocationHeader::read, (order, bytes), header),
        call_ensures(resume, (at_resume, asked->pending, header), action),
        action is Move,
    ensures
        action->Move_usage == usage,
        action->from == block,
        forall|b: int|
            released(free_for(*final(at_resume), usage), action->from).contains(b) <==> {
                ||| block.raw <= b < block.raw + taken(HEADER_SIZE + block.size)
                ||| free_for(*old(at_resume), usage).contains(b) && !(action->to.raw <= b
                    < action->to.raw + taken(HEADER_SIZE + size))
            },
        span(block.raw as int, taken(HEADER_SIZE + block.size)).disjoint(
            span(action->to.raw as int, taken(HEADER_SIZE + size)),
        ),
        consistent(
            released(free_for(*final(at_resume), usage), block),
            live.insert(action->to).remove(block),
        ),
{
    law_realloc_moves_the_block_at_the_address(
        order,
        usage,
        mmaped,
        ptr,
        size,
        block,
        at_realloc,
        asked,
        memory,
        bytes,
        header,
        at_resume,
        action,
    );
    let to = action->to;
    assert(block.extent().disjoint(free_for(*at_resume, usage)));
    law_malloc_keeps_blocks_apart(*at_resume, *final(at_resume), usage, size as int, to, live);
    law_release_keeps_blocks_apart(
        free_for(*final(at_resume), usage),
        block,
        live.insert(to),
    );
}

/// A replacement is served whenever the pool has a free run with room for the new payload and a
/// fixed slack.
pub proof fn law_realloc_serves_where_there_is_room(
    usage: u32,
    ptr: usize,
    size: u32,
    data: &mut CustomMemoryPoolData,
    header: AllocationHeader,
    action: Action,
    least: int,
    limit: int,
    lo: int,
)
    requires
        call_ensures(resume, (data, Pending::Realloc { usage, ptr, size }, header), action),
        HEADER_SIZE + header.size + 7 <= isize::MAX,
        HEADER_SIZE + size + 7 <= isize::MAX,
        forall|b: int| #[trigger]
            free_for(*data, usage).contains(b) ==> least <= b < limit,
        span(lo, size + 2 * HEADER_SIZE + 7 * word()).subset_of(free_for(*data, usage)),
    ensures
        action is Move,
        action->to.raw < lo + min_hole() + ALIGNMENT,
{
    let free = free_for(*data, usage);
    let (start, end) = lemma_room_serves(free, least, limit, lo, size as int);
    law_what_is_storable(size as int);
    law_what_is_storable(header.size as int);
    if let Action::Move { to, .. } = action {
        lemma_block_not_behind(free, HEADER_SIZE + size, to.raw as int, start, end);
    }
}

/// Filling a block from another one writes its header, copies the payload as far as both go and
/// leaves every other byte alone.
pub proof fn law_filling_keeps_the_payload(
    order: ByteOrder,
    to: Block,
    from: Block,
    bytes: &mut [u8],
    from_bytes: &[u8],
    header: AllocationHeader,
)
    requires
        call_ensures(Block::fill_from, (&to, order, bytes, &from, from_bytes), ()),
        old(bytes)@.len() == HEADER_SIZE + to.size,
        from_bytes@.len() == HEADER_SIZE + from.size,
        header.size as int == order.value(final(bytes)@),
    ensures
        final(bytes)@.len() == old(bytes)@.len(),
        header.size == to.size,
        forall|i: int|
            0 <= i < to.size && i < from.size ==> #[trigger] final(bytes)@[HEADER_SIZE + i]
                == from_bytes@[HEADER_SIZE + i],
        forall|i: int|
            from.size <= i < to.size ==> #[trigger] final(bytes)@[HEADER_SIZE + i]
                == old(bytes)@[HEADER_SIZE + i],
        forall|i: int|
            word() <= i < HEADER_SIZE ==> #[trigger] final(bytes)@[i] == old(bytes)@[i],
{
    assert forall|i: int| 0 <= i < to.size && i < from.size implies #[trigger] final(
        bytes)@[HEADER_SIZE + i] == from_bytes@[HEADER_SIZE + i] by {
        assert(word() <= HEADER_SIZE);
    }
}

/// Replacing a block keeps the payload, carried through from the call to memory: once the host has
/// filled the new block as it was told, the first bytes behind the address that the call is
/// answered with are those that were behind `ptr`, up to the smaller of the old and the new size,
/// and the new header tells the new size.
pub proof fn law_realloc_keeps_the_bytes_at_the_address(
    order: ByteOrder,
    usage: u32,
    mmaped: bool,
    ptr: usize,
    size: u32,
    block: Block,
    at_realloc: &mut CustomMemoryPoolData,
    asked: Action,
    memory: spec_fn(int) -> u8,
    bytes: &[u8],
    header: AllocationHeader,
    at_resume: &mut CustomMemoryPoolData,
    action: Action,
    from_bytes: &[u8],
    to_bytes: &mut [u8],
    memory_after: spec_fn(int) -> u8,
    answer: usize,
)
    requires
        block.raw != NULL,
        ptr == block.raw + HEADER_SIZE,
        order.value(bytes_at(memory, block.raw as int, HEADER_SIZE as int)) == block.size,
        size != 0,
        call_ensures(realloc_func, (usage, mmaped, Some(at_realloc), ptr, size), asked),
        bytes@ == bytes_at(memory, asked->header as int, HEADER_SIZE as int),
        call_ensures(AllocationHeader::read, (order, bytes), header),
        call_ensures(resume, (at_resume, asked->pending, header), action),
        action is Move,
        from_bytes@ == bytes_at(
            memory,
            action->from.raw as int,
            HEADER_SIZE + action->from.size,
        ),
        old(to_bytes)@.len() == HEADER_SIZE + action->to.size,
        call_ensures(
            Block::fill_from,
            (&action->to, order, to_bytes, &action->from, from_bytes),
            (),
        ),
        final(to_bytes)@ == bytes_at(
            memory_after,
            action->to.raw as int,
            HEADER_SIZE + action->to.size,
        ),
        call_ensures(Action::answer, (&action,), answer),
    ensures
        answer == action->to.raw + HEADER_SIZE,
        forall|i: int|
            0 <= i < block.size && i < size ==> #[trigger] memory_after(answer + i) == memory(
                ptr + i,
            ),
        order.value(bytes_at(memory_after, answer - HEADER_SIZE, HEADER_SIZE as int)) == size,
{
    law_realloc_moves_the_block_at_the_address(
        order,
        usage,
        mmaped,
        ptr,
        size,
        block,
        at_realloc,
        asked,
        memory,
        bytes,
        header,
        at_resume,
        action,
    );
    let to = action->to;
    law_filling_keeps_the_payload(
        order,
        to,
        action->from,
        to_bytes,
        from_bytes,
        AllocationHeader { size: to.size },
    );
    assert forall|i: int| 0 <= i < block.size && i < size implies #[trigger] memory_after(
        answer + i,
    ) == memory(ptr + i) by {
        let k = HEADER_SIZE + i;
        assert(final(to_bytes)@[HEADER_SIZE + i] == from_bytes@[HEADER_SIZE + i]);
        assert(to.raw + k == answer + i);
        assert(block.raw + k == ptr + i);
    }
    let header_bytes = bytes_at(memory_after, to.raw as int, HEADER_SIZE as int);
    assert forall|i: int| 0 <= i < HEADER_SIZE implies header_bytes[i] == #[trigger] final(
        to_bytes)@[i] by {}
    assert(order.value(header_bytes) == order.value(final(to_bytes)@));
}

/// Replacing what a request for `size` bytes was answered with keeps the first bytes of it, up to
/// the smaller of `size` and the new size.
pub proof fn law_realloc_keeps_what_malloc_answered(
    order: ByteOrder,
    usage: u32,
    mmaped: bool,
    size: u32,
    new_size: u32,
    at_malloc: &mut CustomMemoryPoolData,
    taken_action: Action,
    ptr: usize,
    slot: &mut [u8],
    at_realloc: &mut CustomMemoryPoolData,
    asked: Action,
    memory: spec_fn(int) -> u8,
    bytes: &[u8],
    header: AllocationHeader,
    at_resume: &mut CustomMemoryPoolData,
    action: Action,
    from_bytes: &[u8],
    to_bytes: &mut [u8],
    memory_after: spec_fn(int) -> u8,
    answer: usize,
)
    requires
        call_ensures(malloc_func, (usage, Some(at_malloc), size), taken_action),
        taken_action is Open,
        call_ensures(
            AllocationHeader::write,
            (&AllocationHeader { size: taken_action->Open_block.size }, order, slot),
            (),
        ),
        old(slot)@.len() == HEADER_SIZE,
        final(slot)@ == bytes_at(
            memory,
            taken_action->Open_block.raw as int,
            HEADER_SIZE as int,
        ),
        call_ensures(Action::answer, (&taken_action,), ptr),
        new_size != 0,
        call_ensures(realloc_func, (usage, mmaped, Some(at_realloc), ptr, new_size), asked),
        bytes@ == bytes_at(memory, asked->header as int, HEADER_SIZE as int),
        call_ensures(AllocationHeader::read, (order, bytes), header),
        call_ensures(resume, (at_resume, asked->pending, header), action),
        action is Move,
        from_bytes@ == bytes_at(
            memory,
            action->from.raw as int,
            HEADER_SIZE + action->from.size,
        ),
        old(to_bytes)@.len() == HEADER_SIZE + action->to.size,
        call_ensures(
            Block::fill_from,
            (&action->to, order, to_bytes, &action->from, from_bytes),
            (),
        ),
        final(to_bytes)@ == bytes_at(
            memory_after,
            action->to.raw as int,
            HEADER_SIZE + action->to.size,
        ),
        call_ensures(Action::answer, (&action,), answer),
    ensures
        action->from == taken_action->Open_block,
        action->from.size == size,
        action->to.size == new_size,
        action->Move_usage == usage,
        forall|i: int|
            0 <= i < size && i < new_size ==> #[trigger] memory_after(answer + i) == memory(
                ptr + i,
            ),
{
    let block = taken_action->Open_block;
    law_malloc_opens_what_was_asked_for(usage, at_malloc, size, taken_action);
    law_realloc_moves_the_block_at_the_address(
        order,
        usage,
        mmaped,
        ptr,
        new_size,
        block,
        at_realloc,
        asked,
        memory,
        bytes,
        header,
        at_resume,
        action,
    );
    law_realloc_keeps_the_bytes_at_the_address(
        order,
        usage,
        mmaped,
        ptr,
        new_size,
        block,
        at_realloc,
        asked,
        memory,
        bytes,
        header,
        at_resume,
        action,
        from_bytes,
        to_bytes,
        memory_after,
        answer,
    );
}

/// The regions of two pools, one behind the other, list each of them once and whole.
pub(crate) proof fn lemma_regions(data: CustomMemoryPoolData, regions: Seq<PoolRegion>)
    requires
        regions == data.region(ALLOC_FOR_LINEAR_MEMORY) + data.region(ALLOC_FOR_RUNTIME),
    ensures
        lists_pool(regions, ALLOC_FOR_LINEAR_MEMORY, data.linear_memory_pool),
        lists_pool(regions, ALLOC_FOR_RUNTIME, data.runtime_memory_pool),
        forall|i: int|
            0 <= i < regions.len() ==> #[trigger] regions[i].usage == ALLOC_FOR_LINEAR_MEMORY
                || regions[i].usage == ALLOC_FOR_RUNTIME,
{
    let linear = data.region(ALLOC_FOR_LINEAR_MEMORY);
    let runtime = data.region(ALLOC_FOR_RUNTIME);
    if let Some(memory) = data.linear_memory_pool {
        assert(memory.len() == memory@.len());
        assert(linear.len() == 1);
        assert(regions[0] == linear[0]);
        assert(regions[0].usage == ALLOC_FOR_LINEAR_MEMORY);
    }
    if let Some(memory) = data.runtime_memory_pool {
        assert(memory.len() == memory@.len());
        assert(runtime.len() == 1);
        let i = linear.len() as int;
        assert(regions[i] == runtime[0]);
        assert(regions[i].usage == ALLOC_FOR_RUNTIME);
    }
    assert forall|i: int| 0 <= i < regions.len() implies #[trigger] regions[i].usage
        == ALLOC_FOR_LINEAR_MEMORY || regions[i].usage == ALLOC_FOR_RUNTIME by {
        assert(i < linear.len() ==> regions[i] == linear[i]);
        assert(i >= linear.len() ==> regions[i] == runtime[i - linear.len()]);
    }
}

/// Every pool that there is, is set up: for each of the two usages the set-up lists the pool for
/// it exactly once and with all of its length if there is one, and not at all if there is none,
/// and it lists nothing else.
pub proof fn law_init_lists_every_pool_once(data: CustomMemoryPoolData, regions: Vec<PoolRegion>)
    requires
        call_ensures(CustomMemoryPoolData::init, (&data,), regions),
    ensures
        lists_pool(regions@, ALLOC_FOR_LINEAR_MEMORY, data.linear_memory_pool),
        lists_pool(regions@, ALLOC_FOR_RUNTIME, data.runtime_memory_pool),
        forall|i: int|
            0 <= i < regions@.len() ==> #[trigger] regions@[i].usage == ALLOC_FOR_LINEAR_MEMORY
                || regions@[i].usage == ALLOC_FOR_RUNTIME,
        data.linear_memory_pool is Some ==> regions@[0].usage == ALLOC_FOR_LINEAR_MEMORY,
{
    lemma_regions(data, regions@);
}

/// Requests for linear memory have a heap and a pool of their own; every other usage has the other
/// heap and the other pool.  What is done to the heap is done to no other field.
pub proof fn law_usage_selects_heap_and_pool(
    data: &mut CustomMemoryPoolData,
    usage: u32,
    heap: &mut Heap,
    pools: CustomMemoryPoolData,
    pool: &Option<Box<[u8]>>,
)
    requires
        call_ensures(CustomMemoryPoolData::allocator, (data, usage), heap),
        call_ensures(CustomMemoryPoolData::memory_pool, (&pools, usage), pool),
    ensures
        usage == ALLOC_FOR_LINEAR_MEMORY ==> {
            &&& *old(heap) == old(data).linear_memory_allocator
            &&& final(data).linear_memory_allocator == *final(heap)
            &&& *pool == pools.linear_memory_pool
        },
        usage != ALLOC_FOR_LINEAR_MEMORY ==> {
            &&& *old(heap) == old(data).runtime_memory_allocator
            &&& final(data).runtime_memory_allocator == *final(heap)
            &&& *pool == pools.runtime_memory_pool
        },
        only_heap_changed(*old(data), *final(data), usage),
{
}

/// New pools have no memory, so no request on them is served.
pub proof fn law_new_pools_serve_nothing(
    usage: u32,
    data: &mut CustomMemoryPoolData,
    size: u32,
    action: Action,
)
    requires
        call_ensures(<CustomMemoryPoolData as Default>::default, (), *data),
        call_ensures(malloc_func, (usage, Some(data), size), action),
    ensures
        action is Decline,
        old(data).linear_memory_pool is None,
        old(data).runtime_memory_pool is None,
        forall|b: int| !(#[trigger] free_for(*old(data), ALLOC_FOR_RUNTIME).contains(b)),
        forall|b: int| !(#[trigger] free_for(*old(data), ALLOC_FOR_LINEAR_MEMORY).contains(b)),
{
    law_malloc_opens_what_was_asked_for(usage, data, size, action);
    if let Action::Open { block } = action {
        lemma_taken(HEADER_SIZE + size);
        assert(span(block.raw as int, taken(HEADER_SIZE + size)).contains(block.raw as int));
        assert(free_for(*data, usage).contains(block.raw as int));
    }
}

/// The header has just the room that it needs: it is the smallest multiple of the alignment that
/// holds a machine word.  So a payload is aligned whenever its block is.
pub proof fn law_header_is_a_padded_word(raw: int)
    ensures
        word() <= HEADER_SIZE < word() + ALIGNMENT,
        HEADER_SIZE as int % ALIGNMENT as int == 0,
        (raw + HEADER_SIZE) % ALIGNMENT as int == 0 <==> raw % ALIGNMENT as int == 0,
{
}

/// Where a byte of a machine word stands: a little-endian machine counts from the front, a
/// big-endian one from the back.
pub proof fn law_byte_positions(order: ByteOrder, i: usize, position: usize)
    requires
        i < word(),
        call_ensures(ByteOrder::position, (order, i), position),
    ensures
        order is Little ==> position == i,
        order is Big ==> position + i + 1 == word(),
{
}

/// The calls can be made whatever WAMR asks for: only a payload address that leaves no room for a
/// header in front of it is excepted.
pub proof fn law_calls_can_be_made(
    usage: u32,
    mmaped: bool,
    user_data: Option<&mut CustomMemoryPoolData>,
    ptr: usize,
    size: u32,
)
    requires
        ptr == NULL || ptr > HEADER_SIZE,
    ensures
        call_requires(malloc_func, (usage, user_data, size)),
        call_requires(free_func, (usage, user_data, ptr)),
        call_requires(realloc_func, (usage, mmaped, user_data, ptr, size)),
{
}

/// A header can be written and read wherever there is room for one, and it has an address in front
/// of every payload.
pub proof fn law_headers_can_be_kept(
    header: AllocationHeader,
    order: ByteOrder,
    slot: &mut [u8],
    bytes: &[u8],
    ptr: usize,
)
    requires
        old(slot)@.len() >= HEADER_SIZE,
        bytes@.len() >= HEADER_SIZE,
        ptr >= HEADER_SIZE,
    ensures
        call_requires(AllocationHeader::write, (&header, order, slot)),
        call_requires(AllocationHeader::read, (order, bytes)),
        call_requires(get_header, (ptr,)),
{
}

/// What a request is told to do can be done: there is an answer, and the block that was taken has
/// an address and a size.
pub proof fn law_malloc_can_be_carried_out(
    usage: u32,
    user_data: Option<&mut CustomMemoryPoolData>,
    size: u32,
    action: Action,
)
    requires
        call_ensures(malloc_func, (usage, user_data, size), action),
    ensures
        call_requires(Action::answer, (&action,)),
        action matches Action::Open { block } ==> call_requires(Block::ptr, (&block,))
            && call_requires(Block::total, (&block,)),
{
}

/// What a free call is told to do can be done: there is an answer, and with whatever header is
/// found the call can be resumed.
pub proof fn law_free_can_be_carried_out(
    usage: u32,
    user_data: Option<&mut CustomMemoryPoolData>,
    ptr: usize,
    action: Action,
    data: &mut CustomMemoryPoolData,
    header: AllocationHeader,
)
    requires
        call_ensures(free_func, (usage, user_data, ptr), action),
    ensures
        call_requires(Action::answer, (&action,)),
        action matches Action::Inspect { pending, .. } ==> call_requires(
            resume,
            (data, pending, header),
        ),
{
}

/// The same of a call that replaces a block.
pub proof fn law_realloc_can_be_carried_out(
    usage: u32,
    mmaped: bool,
    user_data: Option<&mut CustomMemoryPoolData>,
    ptr: usize,
    size: u32,
    action: Action,
    data: &mut CustomMemoryPoolData,
    header: AllocationHeader,
)
    requires
        call_ensures(realloc_func, (usage, mmaped, user_data, ptr, size), action),
    ensures
        call_requires(Action::answer, (&action,)),
        action matches Action::Inspect { pending, .. } ==> call_requires(
            resume,
            (data, pending, header),
        ),
{
}

/// What a resumed call is told to do can be done: there is an answer, a block that is given back
/// has the size that it was taken with, and a block that replaces another one can be filled from
/// it.
pub proof fn law_resumed_call_can_be_carried_out(
    data: &mut CustomMemoryPoolData,
    pending: Pending,
    header: AllocationHeader,
    action: Action,
    order: ByteOrder,
    bytes: &mut [u8],
    from_bytes: &[u8],
)
    requires
        call_ensures(resume, (data, pending, header), action),
    ensures
        call_requires(Action::answer, (&action,)),
        action matches Action::Close { block, .. } ==> call_requires(Block::total, (&block,)),
        action matches Action::Move { from, to, .. } ==> {
            &&& call_requires(Block::total, (&from,))
            &&& call_requires(Block::total, (&to,))
            &&& old(bytes)@.len() == HEADER_SIZE + to.size && from_bytes@.len() == HEADER_SIZE
                + from.size ==> call_requires(
                Block::fill_from,
                (&to, order, bytes, &from, from_bytes),
            )
        },
{
}

} // verus!
