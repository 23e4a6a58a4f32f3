//! The memory pools and the three allocation calls that WAMR makes on them.
//!
//! Deciding on a call and touching memory are kept apart.  [`malloc_func`], [`free_func`] and
//! [`realloc_func`] take the call and answer with an [`Action`] for the host; where the decision
//! needs the header of a block first, the host reads it and goes on with [`resume`].  The host is
//! the only one that turns an address into memory.
use crate::block::{
    get_header, is_storable, storable, AllocationHeader, Block, ALIGNMENT, HEADER_SIZE, NULL,
};
use crate::heap::{allocate_first_fit, free_bytes, is_first_fit, no_fit, taken};
use linked_list_allocator::Heap;
use vstd::prelude::*;

verus! {

/// WAMR asks for memory for itself.
pub const ALLOC_FOR_RUNTIME: u32 = 0;

/// WAMR asks for the linear memory of a module.
pub const ALLOC_FOR_LINEAR_MEMORY: u32 = 1;

/// The two memory pools, each with the heap that serves it.
pub struct CustomMemoryPoolData {
    /// Serves requests for linear memory.
    pub linear_memory_allocator: Heap,
    /// The memory behind `linear_memory_allocator`.
    pub linear_memory_pool: Option<Box<[u8]>>,
    /// Serves every other request.
    pub runtime_memory_allocator: Heap,
    /// The memory behind `runtime_memory_allocator`.
    pub runtime_memory_pool: Option<Box<[u8]>>,
}

/// A pool whose memory a heap has to be set up with: all `len` bytes of the pool for `usage`.
#[derive(Clone, Copy, Debug, PartialEq, Eq, Structural)]
pub struct PoolRegion {
    /// Which pool, and which heap.
    pub usage: u32,
    /// How many bytes the pool has.
    pub len: usize,
}

impl CustomMemoryPoolData {
    /// The heap that serves `usage`.
    pub open spec fn heap(self, usage: u32) -> Heap {
        if usage == ALLOC_FOR_LINEAR_MEMORY {
            self.linear_memory_allocator
        } else {
            self.runtime_memory_allocator
        }
    }

    /// The pool behind the heap that serves `usage`.
    pub open spec fn pool(self, usage: u32) -> Option<Box<[u8]>> {
        if usage == ALLOC_FOR_LINEAR_MEMORY {
            self.linear_memory_pool
        } else {
            self.runtime_memory_pool
        }
    }

    /// These pools with another heap for `usage`.
    pub open spec fn with_heap(self, usage: u32, heap: Heap) -> CustomMemoryPoolData {
        if usage == ALLOC_FOR_LINEAR_MEMORY {
            CustomMemoryPoolData { linear_memory_allocator: heap, ..self }
        } else {
            CustomMemoryPoolData { runtime_memory_allocator: heap, ..self }
        }
    }

    /// There is no memory: both heaps are without free bytes and both pools are missing.
    pub open spec fn is_empty(self) -> bool {
        &&& free_bytes(self.linear_memory_allocator) == Set::<int>::empty()
        &&& self.linear_memory_pool is None
        &&& free_bytes(self.runtime_memory_allocator) == Set::<int>::empty()
        &&& self.runtime_memory_pool is None
    }

    /// The region of the pool for `usage`, if there is such a pool.
    pub open spec fn region(self, usage: u32) -> Seq<PoolRegion> {
        match self.pool(usage) {
            Some(pool) => seq![PoolRegion { usage, len: pool@.len() as usize }],
            None => seq![],
        }
    }
}

impl Default for CustomMemoryPoolData {
    fn default() -> (data: CustomMemoryPoolData)
        ensures
            data.is_empty(),
    {
        CustomMemoryPoolData {
            linear_memory_allocator: Heap::empty(),
            linear_memory_pool: None,
            runtime_memory_allocator: Heap::empty(),
            runtime_memory_pool: None,
        }
    }
}

impl CustomMemoryPoolData {
    /// The heap that serves `usage`: requests for linear memory have one of their own, all others
    /// share the other one.
    pub fn allocator(&mut self, usage: u32) -> (heap: &mut Heap)
        ensures
            *heap == old(self).heap(usage),
            *final(self) == old(self).with_heap(usage, *final(heap)),
    {
        if usage == ALLOC_FOR_LINEAR_MEMORY {
            &mut self.linear_memory_allocator
        } else {
            &mut self.runtime_memory_allocator
        }
    }

    /// The pool behind the heap that serves `usage`.
    pub fn memory_pool(&self, usage: u32) -> (pool: &Option<Box<[u8]>>)
        ensures
            *pool == self.pool(usage),
    {
        if usage == ALLOC_FOR_LINEAR_MEMORY {
            &self.linear_memory_pool
        } else {
            &self.runtime_memory_pool
        }
    }

    /// Lists the pools that there are, the one for linear memory first: each heap whose pool is
    /// listed has to be set up with the whole of it, and a heap without a pool stays empty.
    pub fn init(&self) -> (regions: Vec<PoolRegion>)
        ensures
            regions@ == self.region(ALLOC_FOR_LINEAR_MEMORY) + self.region(ALLOC_FOR_RUNTIME),
    {
        let mut regions: Vec<PoolRegion> = Vec::new();
        if let Some(linear_memory_pool) = &self.linear_memory_pool {
            regions.push(
                PoolRegion { usage: ALLOC_FOR_LINEAR_MEMORY, len: linear_memory_pool.len() },
            );
        }
        if let Some(runtime_memory_pool) = &self.runtime_memory_pool {
            regions.push(PoolRegion { usage: ALLOC_FOR_RUNTIME, len: runtime_memory_pool.len() });
        }
        assert(regions@ =~= self.region(ALLOC_FOR_LINEAR_MEMORY) + self.region(ALLOC_FOR_RUNTIME));
        regions
    }
}

/// What is left to do of a call once the header of its block is known.
#[derive(Clone, Copy, Debug, PartialEq, Eq, Structural)]
pub enum Pending {
    /// Give the block whose payload is at `ptr` back to the heap for `usage`.
    Free { usage: u32, ptr: usize },
    /// Replace the block whose payload is at `ptr` by one with a payload of `size` bytes, both of
    /// the heap for `usage`.
    Realloc { usage: u32, ptr: usize, size: u32 },
}

impl Pending {
    /// The address of the payload that the call is about.
    pub open spec fn spec_ptr(self) -> usize {
        match self {
            Pending::Free { ptr, .. } => ptr,
            Pending::Realloc { ptr, .. } => ptr,
        }
    }

    /// There is room for a header in front of the payload, and not at the null address.
    pub open spec fn wf(self) -> bool {
        self.spec_ptr() > HEADER_SIZE
    }
}

/// What the host has to do next for a call.
#[derive(Clone, Copy, Debug, PartialEq, Eq, Structural)]
pub enum Action {
    /// Nothing: the call is answered with the null address.
    Decline,
    /// Write the header of `block`, which was just taken from the heap.
    Open { block: Block },
    /// Read the header at `header` and go on with [`resume`].
    Inspect { header: usize, pending: Pending },
    /// Give `block` back to the heap for `usage`.
    Close { usage: u32, block: Block },
    /// Fill `to`, which was just taken from the heap for `usage`, from `from`, then give `from`
    /// back to that heap.
    Move { usage: u32, from: Block, to: Block },
}

impl Action {
    /// The blocks and the pending call that the action speaks of are well-formed.
    pub open spec fn wf(self) -> bool {
        match self {
            Action::Decline => true,
            Action::Open { block } => block.wf(),
            Action::Inspect { header, pending } => pending.wf() && header == pending.spec_ptr()
                - HEADER_SIZE,
            Action::Close { block, .. } => block.wf(),
            Action::Move { from, to, .. } => from.wf() && to.wf(),
        }
    }

    /// What the call is answered with once the action is done: the payload of the block that was
    /// taken, or the null address if none was.
    pub open spec fn spec_answer(self) -> int {
        match self {
            Action::Open { block } => block.spec_ptr(),
            Action::Move { to, .. } => to.spec_ptr(),
            _ => NULL as int,
        }
    }

    /// What the call is answered with once the action is done.
    pub fn answer(&self) -> (ptr: usize)
        requires
            self.wf(),
        ensures
            ptr == self.spec_answer(),
    {
        match self {
            Action::Open { block } => block.ptr(),
            Action::Move { to, .. } => to.ptr(),
            _ => NULL,
        }
    }
}

/// What taking a block for a payload of `size` bytes does: the heap for `usage` puts it in the
/// first hole that can serve it, and nothing else changes; without such a hole, or if the payload
/// cannot be stored, no byte changes hands.
pub open spec fn takes_block(
    before: CustomMemoryPoolData,
    after: CustomMemoryPoolData,
    usage: u32,
    size: int,
    taken_block: Option<Block>,
) -> bool {
    let free = free_bytes(before.heap(usage));
    &&& after == before.with_heap(usage, after.heap(usage))
    &&& match taken_block {
        Some(block) => {
            &&& block.wf()
            &&& block.size == size
            &&& is_first_fit(free, HEADER_SIZE + size, ALIGNMENT as int, block.raw as int)
            &&& block.raw as int % ALIGNMENT as int == 0
            &&& block.raw + taken(block.spec_total()) <= usize::MAX
            &&& free_bytes(after.heap(usage)) == free.difference(block.extent())
        },
        None => {
            &&& !storable(size) || no_fit(free, HEADER_SIZE + size, ALIGNMENT as int)
            &&& free_bytes(after.heap(usage)) == free
        },
    }
}

/// What a call of [`malloc_func`] on existing pools does.
pub open spec fn mallocs(
    before: CustomMemoryPoolData,
    after: CustomMemoryPoolData,
    usage: u32,
    size: int,
    action: Action,
) -> bool {
    match action {
        Action::Open { block } => takes_block(before, after, usage, size, Some(block)),
        Action::Decline => takes_block(before, after, usage, size, None),
        _ => false,
    }
}

/// What a call of [`free_func`] on existing pools asks for.
pub open spec fn frees(usage: u32, ptr: usize) -> Action {
    if ptr == NULL {
        Action::Decline
    } else {
        Action::Inspect {
            header: (ptr - HEADER_SIZE) as usize,
            pending: Pending::Free { usage, ptr },
        }
    }
}

/// The block whose payload is at `ptr` and whose header is `header`.
pub open spec fn block_at(ptr: usize, header: AllocationHeader) -> Block {
    Block { raw: (ptr - HEADER_SIZE) as usize, size: header.size }
}

/// What giving back the block at `ptr` comes to once its header is known.
pub open spec fn gives_back(usage: u32, ptr: usize, header: AllocationHeader) -> Action {
    if storable(header.size as int) {
        Action::Close { usage, block: block_at(ptr, header) }
    } else {
        Action::Decline
    }
}

/// What replacing the block at `ptr` comes to once its header is known.
pub open spec fn replaces(
    before: CustomMemoryPoolData,
    after: CustomMemoryPoolData,
    usage: u32,
    ptr: usize,
    header: AllocationHeader,
    size: int,
    action: Action,
) -> bool {
    if !storable(header.size as int) {
        action == Action::Decline && after == before
    } else {
        match action {
            Action::Move { usage: heap, from, to } => {
                &&& heap == usage
                &&& from == block_at(ptr, header)
                &&& takes_block(before, after, usage, size, Some(to))
            },
            Action::Decline => takes_block(before, after, usage, size, None),
            _ => false,
        }
    }
}

/// Takes a block for a payload of `size` bytes from the heap for `usage`.
pub fn allocate(data: &mut CustomMemoryPoolData, usage: u32, size: usize) -> (block: Option<Block>)
    ensures
        takes_block(*old(data), *final(data), usage, size as int, block),
{
    if !is_storable(size) {
        return None;
    }
    let total_size: usize = HEADER_SIZE + size;
    match allocate_first_fit(data.allocator(usage), total_size, ALIGNMENT) {
        Some(raw) => Some(Block { raw, size }),
        None => None,
    }
}

/// A request for a new block with a payload of `size` bytes.  Without pools it is declined.
pub fn malloc_func(
    usage: u32,
    user_data: Option<&mut CustomMemoryPoolData>,
    size: u32,
) -> (action: Action)
    ensures
        action.wf(),
        user_data is None ==> action == Action::Decline,
        user_data is Some ==> mallocs(
            *old(user_data->0),
            *final(user_data->0),
            usage,
            size as int,
            action,
        ),
{
    match user_data {
        Some(data) => match allocate(data, usage, size as usize) {
            Some(block) => Action::Open { block },
            None => Action::Decline,
        },
        None => Action::Decline,
    }
}

/// Gives back the block whose payload is at `ptr`.  Without pools, or for the null address, there
/// is nothing to do.
pub fn free_func(
    usage: u32,
    user_data: Option<&mut CustomMemoryPoolData>,
    ptr: usize,
) -> (action: Action)
    requires
        user_data is Some && ptr != NULL ==> ptr > HEADER_SIZE,
    ensures
        action.wf(),
        user_data is None ==> action == Action::Decline,
        user_data is Some ==> action == frees(usage, ptr)
            && *final(user_data->0) == *old(user_data->0),
{
    if user_data.is_none() || ptr == NULL {
        return Action::Decline;
    }
    Action::Inspect { header: get_header(ptr), pending: Pending::Free { usage, ptr } }
}

/// Replaces the block whose payload is at `ptr` by one with a payload of `size` bytes.  Without
/// pools the request is declined.  For the null address it is a request for a new block, and for
/// a size of zero it gives the block back.
pub fn realloc_func(
    usage: u32,
    _full_size_mmaped: bool,
    user_data: Option<&mut CustomMemoryPoolData>,
    ptr: usize,
    size: u32,
) -> (action: Action)
    requires
        user_data is Some && ptr != NULL ==> ptr > HEADER_SIZE,
    ensures
        action.wf(),
        user_data is None ==> action == Action::Decline,
        user_data is Some && ptr == NULL ==> mallocs(
            *old(user_data->0),
            *final(user_data->0),
            usage,
            size as int,
            action,
        ),
        user_data is Some && ptr != NULL && size == 0 ==> action == frees(usage, ptr)
            && *final(user_data->0) == *old(user_data->0),
        user_data is Some && ptr != NULL && size != 0 ==> action == (Action::Inspect {
            header: (ptr - HEADER_SIZE) as usize,
            pending: Pending::Realloc { usage, ptr, size },
        }) && *final(user_data->0) == *old(user_data->0),
{
    match user_data {
        None => Action::Decline,
        Some(data) => {
            if ptr == NULL {
                return malloc_func(usage, Some(data), size);
            }
            if size == 0 {
                return free_func(usage, Some(data), ptr);
            }
            Action::Inspect {
                header: get_header(ptr),
                pending: Pending::Realloc { usage, ptr, size },
            }
        },
    }
}

/// Goes on with a call whose block has `header`.
///
/// A block is given back with the layout that its header tells; a header that no layout goes with
/// is left alone.  A replacement takes the new block first, so that the old one is untouched if
/// there is no room for it.
pub fn resume(
    data: &mut CustomMemoryPoolData,
    pending: Pending,
    header: AllocationHeader,
) -> (action: Action)
    requires
        pending.wf(),
    ensures
        action.wf(),
        pending matches Pending::Free { usage, ptr } ==> *final(data) == *old(data) && action
            == gives_back(usage, ptr, header),
        pending matches Pending::Realloc { usage, ptr, size } ==> replaces(
            *old(data),
            *final(data),
            usage,
            ptr,
            header,
            size as int,
            action,
        ),
{
    match pending {
        Pending::Free { usage, ptr } => {
            if !is_storable(header.size) {
                return Action::Decline;
            }
            Action::Close { usage, block: Block { raw: get_header(ptr), size: header.size } }
        },
        Pending::Realloc { usage, ptr, size } => {
            if !is_storable(header.size) {
                return Action::Decline;
            }
            let from = Block { raw: get_header(ptr), size: header.size };
            match allocate(data, usage, size as usize) {
                Some(to) => Action::Move { usage, from, to },
                None => Action::Decline,
            }
        },
    }
}

} // verus!
