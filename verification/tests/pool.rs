use linked_list_allocator::Heap;
use std::collections::BTreeMap;
use std::mem::MaybeUninit;
use wamr_pool::{
    allocate, free_func, malloc_func, realloc_func, resume, Action, AllocationHeader, Block,
    ByteOrder, CustomMemoryPoolData, Pending, PoolRegion, ALIGNMENT, ALLOC_FOR_LINEAR_MEMORY,
    ALLOC_FOR_RUNTIME, HEADER_SIZE, NULL,
};

const LINEAR_POOL_SIZE: usize = 64 * 1024;
const RUNTIME_POOL_SIZE: usize = 64 * 1024;

/// The byte order of this machine.
fn byte_order() -> ByteOrder {
    if 1u16.to_ne_bytes()[0] == 1 {
        ByteOrder::Little
    } else {
        ByteOrder::Big
    }
}

fn region_of(len: usize) -> &'static mut [MaybeUninit<u8>] {
    Box::leak(vec![MaybeUninit::new(0u8); len].into_boxed_slice())
}

/// Sets the heaps up as `init` says.
fn set_up(data: &mut CustomMemoryPoolData) {
    for region in data.init() {
        data.allocator(region.usage).init_from_slice(region_of(region.len));
    }
}

/// Carries out the actions on bytes of its own, kept by the address of each block.  Blocks that
/// are given back are recorded.
struct Host {
    data: CustomMemoryPoolData,
    blocks: BTreeMap<usize, Vec<u8>>,
    given_back: Vec<(u32, Block)>,
}

impl Host {
    fn new(linear: usize, runtime: usize) -> Host {
        let mut data = CustomMemoryPoolData {
            linear_memory_allocator: Heap::empty(),
            linear_memory_pool: Some(vec![0u8; linear].into_boxed_slice()),
            runtime_memory_allocator: Heap::empty(),
            runtime_memory_pool: Some(vec![0u8; runtime].into_boxed_slice()),
        };
        set_up(&mut data);
        Host { data, blocks: BTreeMap::new(), given_back: Vec::new() }
    }

    fn give_back(&mut self, usage: u32, block: Block) {
        assert_eq!(self.blocks.remove(&block.raw).unwrap().len(), block.total());
        self.given_back.push((usage, block));
    }

    fn perform(&mut self, action: Action) -> usize {
        match action {
            Action::Decline => {}
            Action::Open { block } => {
                let mut bytes = vec![0u8; block.total()];
                AllocationHeader { size: block.size }.write(byte_order(), &mut bytes);
                assert!(self.blocks.insert(block.raw, bytes).is_none());
            }
            Action::Inspect { header, pending } => {
                let header = AllocationHeader::read(byte_order(), &self.blocks[&header]);
                let next = resume(&mut self.data, pending, header);
                return self.perform(next);
            }
            Action::Close { usage, block } => self.give_back(usage, block),
            Action::Move { usage, from, to } => {
                let mut bytes = vec![0u8; to.total()];
                to.fill_from(byte_order(), &mut bytes, &from, &self.blocks[&from.raw]);
                assert!(self.blocks.insert(to.raw, bytes).is_none());
                self.give_back(usage, from);
            }
        }
        action.answer()
    }

    fn malloc(&mut self, usage: u32, size: u32) -> usize {
        let action = malloc_func(usage, Some(&mut self.data), size);
        self.perform(action)
    }

    fn free(&mut self, usage: u32, ptr: usize) {
        let action = free_func(usage, Some(&mut self.data), ptr);
        assert_eq!(self.perform(action), NULL);
    }

    fn realloc(&mut self, usage: u32, ptr: usize, size: u32) -> usize {
        let action = realloc_func(usage, false, Some(&mut self.data), ptr, size);
        self.perform(action)
    }

    fn payload(&mut self, ptr: usize) -> &mut [u8] {
        &mut self.blocks.get_mut(&(ptr - HEADER_SIZE)).unwrap()[HEADER_SIZE..]
    }
}

fn create_test_data() -> Host {
    Host::new(LINEAR_POOL_SIZE, RUNTIME_POOL_SIZE)
}

#[test]
fn alloc_func_allocates_memory() {
    let mut host = create_test_data();
    let ptr = host.malloc(ALLOC_FOR_LINEAR_MEMORY, 128);
    assert!(ptr != NULL);
    host.payload(ptr)[..128].fill(0xAB);
    host.free(ALLOC_FOR_LINEAR_MEMORY, ptr);
    let block = Block { raw: ptr - HEADER_SIZE, size: 128 };
    assert_eq!(host.given_back, vec![(ALLOC_FOR_LINEAR_MEMORY, block)]);
}

#[test]
fn alloc_and_free_reuses_memory() {
    let mut host = create_test_data();
    let ptr = host.malloc(ALLOC_FOR_LINEAR_MEMORY, 256);
    assert!(ptr != NULL);
    host.payload(ptr)[..256].fill(0xCD);
    host.free(ALLOC_FOR_LINEAR_MEMORY, ptr);
    let block = Block { raw: ptr - HEADER_SIZE, size: 256 };
    assert_eq!(host.given_back, vec![(ALLOC_FOR_LINEAR_MEMORY, block)]);
    let ptr2 = host.malloc(ALLOC_FOR_LINEAR_MEMORY, 256);
    assert!(ptr2 != NULL);
    host.free(ALLOC_FOR_LINEAR_MEMORY, ptr2);
}

#[test]
fn realloc_func_preserves_data_when_growing() {
    let mut host = create_test_data();
    let ptr = host.malloc(ALLOC_FOR_LINEAR_MEMORY, 128);
    assert!(ptr != NULL);
    for i in 0..128 {
        host.payload(ptr)[i] = i as u8;
    }
    let new_ptr = host.realloc(ALLOC_FOR_LINEAR_MEMORY, ptr, 256);
    assert!(new_ptr != NULL);
    assert_eq!(host.payload(new_ptr).len(), 256);
    for i in 0..128 {
        assert_eq!(host.payload(new_ptr)[i], i as u8);
    }
    let block = Block { raw: ptr - HEADER_SIZE, size: 128 };
    assert_eq!(host.given_back, vec![(ALLOC_FOR_LINEAR_MEMORY, block)]);
    host.free(ALLOC_FOR_LINEAR_MEMORY, new_ptr);
    let block = Block { raw: new_ptr - HEADER_SIZE, size: 256 };
    assert_eq!(host.given_back[1], (ALLOC_FOR_LINEAR_MEMORY, block));
}

#[test]
fn realloc_func_preserves_data_when_shrinking() {
    let mut host = create_test_data();
    let ptr = host.malloc(ALLOC_FOR_LINEAR_MEMORY, 256);
    assert!(ptr != NULL);
    for i in 0..256 {
        host.payload(ptr)[i] = (i & 0xFF) as u8;
    }
    let new_ptr = host.realloc(ALLOC_FOR_LINEAR_MEMORY, ptr, 128);
    assert!(new_ptr != NULL);
    assert_eq!(host.payload(new_ptr).len(), 128);
    for i in 0..128 {
        assert_eq!(host.payload(new_ptr)[i], (i & 0xFF) as u8);
    }
    host.free(ALLOC_FOR_LINEAR_MEMORY, new_ptr);
}

#[test]
fn realloc_null_behaves_like_malloc() {
    let mut host = create_test_data();
    let ptr = host.realloc(ALLOC_FOR_LINEAR_MEMORY, NULL, 128);
    assert!(ptr != NULL);
    assert_eq!(host.payload(ptr).len(), 128);
    host.free(ALLOC_FOR_LINEAR_MEMORY, ptr);

    let mut other = create_test_data();
    let bottom = other.data.linear_memory_allocator.bottom() as usize;
    assert_eq!(other.malloc(ALLOC_FOR_LINEAR_MEMORY, 128), bottom + HEADER_SIZE);
    let bottom = host.data.linear_memory_allocator.bottom() as usize;
    assert_eq!(ptr, bottom + HEADER_SIZE);
}

#[test]
fn realloc_zero_frees_memory() {
    let mut host = create_test_data();
    let ptr = host.malloc(ALLOC_FOR_LINEAR_MEMORY, 128);
    assert!(ptr != NULL);
    let result = host.realloc(ALLOC_FOR_LINEAR_MEMORY, ptr, 0);
    assert!(result == NULL);
    let block = Block { raw: ptr - HEADER_SIZE, size: 128 };
    assert_eq!(host.given_back, vec![(ALLOC_FOR_LINEAR_MEMORY, block)]);
    let ptr2 = host.malloc(ALLOC_FOR_LINEAR_MEMORY, 128);
    assert!(ptr2 != NULL);
    host.free(ALLOC_FOR_LINEAR_MEMORY, ptr2);
}

#[test]
fn runtime_memory_uses_runtime_allocator() {
    let mut host = create_test_data();
    let ptr = host.malloc(ALLOC_FOR_RUNTIME, 128);
    assert!(ptr != NULL);
    assert_eq!(host.data.runtime_memory_allocator.used(), 136);
    assert_eq!(host.data.linear_memory_allocator.used(), 0);
    host.free(ALLOC_FOR_RUNTIME, ptr);
    let block = Block { raw: ptr - HEADER_SIZE, size: 128 };
    assert_eq!(host.given_back, vec![(ALLOC_FOR_RUNTIME, block)]);
}

#[test]
fn multiple_allocations_and_frees() {
    let mut host = create_test_data();
    let mut allocations = Vec::new();
    for size in [16, 32, 64, 128, 256, 512, 1024] {
        let ptr = host.malloc(ALLOC_FOR_LINEAR_MEMORY, size);
        assert!(ptr != NULL, "allocation of {} bytes failed", size);
        host.payload(ptr)[..size as usize].fill(0x5A);
        allocations.push(ptr);
    }
    for ptr in allocations {
        host.free(ALLOC_FOR_LINEAR_MEMORY, ptr);
    }
    assert!(host.blocks.is_empty());
    let ptr = host.malloc(ALLOC_FOR_LINEAR_MEMORY, 1024);
    assert!(ptr != NULL);
    host.free(ALLOC_FOR_LINEAR_MEMORY, ptr);
}

#[test]
fn large_non_power_of_two_allocation() {
    let mut host = Host::new(3 * 1024 * 1024, RUNTIME_POOL_SIZE);
    let size = 1_114_112;
    let ptr = host.malloc(ALLOC_FOR_LINEAR_MEMORY, size);
    assert!(ptr != NULL);
    assert_eq!(host.data.linear_memory_allocator.used(), 1_114_120);
    host.payload(ptr)[..size as usize].fill(0xA5);
    host.free(ALLOC_FOR_LINEAR_MEMORY, ptr);
}

#[test]
fn calls_without_pools_are_declined() {
    assert_eq!(malloc_func(ALLOC_FOR_RUNTIME, None, 16), Action::Decline);
    assert_eq!(free_func(ALLOC_FOR_RUNTIME, None, 4096), Action::Decline);
    assert_eq!(free_func(ALLOC_FOR_RUNTIME, None, 4), Action::Decline);
    assert_eq!(realloc_func(ALLOC_FOR_RUNTIME, false, None, NULL, 16), Action::Decline);
    assert_eq!(realloc_func(ALLOC_FOR_RUNTIME, false, None, 4096, 0), Action::Decline);
    assert_eq!(realloc_func(ALLOC_FOR_RUNTIME, true, None, 4096, 16), Action::Decline);
}

#[test]
fn pools_without_memory_decline() {
    let mut data = CustomMemoryPoolData::default();
    assert!(data.init().is_empty());
    assert_eq!(malloc_func(ALLOC_FOR_RUNTIME, Some(&mut data), 0), Action::Decline);
    assert_eq!(malloc_func(ALLOC_FOR_LINEAR_MEMORY, Some(&mut data), 16), Action::Decline);
}

#[test]
fn freeing_the_null_address_does_nothing() {
    let mut host = create_test_data();
    host.free(ALLOC_FOR_LINEAR_MEMORY, NULL);
    assert!(host.given_back.is_empty());
}

#[test]
fn calls_on_a_block_ask_for_its_header() {
    let mut data = CustomMemoryPoolData::default();
    assert_eq!(
        free_func(7, Some(&mut data), 4096),
        Action::Inspect { header: 4088, pending: Pending::Free { usage: 7, ptr: 4096 } }
    );
    assert_eq!(
        realloc_func(7, false, Some(&mut data), 4096, 0),
        Action::Inspect { header: 4088, pending: Pending::Free { usage: 7, ptr: 4096 } }
    );
    assert_eq!(
        realloc_func(7, false, Some(&mut data), 4096, 24),
        Action::Inspect { header: 4088, pending: Pending::Realloc { usage: 7, ptr: 4096, size: 24 } }
    );
}

#[test]
fn init_lists_the_pools_that_there_are() {
    let mut data = CustomMemoryPoolData::default();
    data.runtime_memory_pool = Some(vec![0u8; 100].into_boxed_slice());
    let runtime = PoolRegion { usage: ALLOC_FOR_RUNTIME, len: 100 };
    assert_eq!(data.init(), vec![runtime]);
    data.linear_memory_pool = Some(vec![0u8; 200].into_boxed_slice());
    let linear = PoolRegion { usage: ALLOC_FOR_LINEAR_MEMORY, len: 200 };
    assert_eq!(data.init(), vec![linear, runtime]);
    assert_eq!(data.memory_pool(ALLOC_FOR_LINEAR_MEMORY).as_ref().unwrap().len(), 200);
    assert_eq!(data.memory_pool(ALLOC_FOR_RUNTIME).as_ref().unwrap().len(), 100);
}

#[test]
fn every_other_usage_is_served_from_the_runtime_pool() {
    let mut host = create_test_data();
    assert!(host.malloc(7, 128) != NULL);
    assert_eq!(host.data.runtime_memory_allocator.used(), 136);
    assert_eq!(host.data.linear_memory_allocator.used(), 0);
}

#[test]
fn blocks_are_aligned_and_apart() {
    let mut host = create_test_data();
    let mut end = host.data.linear_memory_allocator.bottom() as usize;
    for size in [0, 1, 8, 9, 16, 17, 100, 1000] {
        let ptr = host.malloc(ALLOC_FOR_LINEAR_MEMORY, size);
        assert_eq!(ptr % ALIGNMENT, 0);
        assert_eq!(ptr, end + HEADER_SIZE);
        let total = HEADER_SIZE + size as usize;
        end += (total.max(16) + 7) / 8 * 8;
    }
}

#[test]
fn an_unused_pool_serves_what_fits() {
    // The rest behind the block is nothing, or can be a hole.
    for (size, served) in [(40, true), (41, false), (48, false), (49, true), (56, true), (57, false)] {
        let mut host = Host::new(64, 64);
        assert_eq!(host.data.linear_memory_allocator.size(), 64);
        assert_eq!(host.malloc(ALLOC_FOR_LINEAR_MEMORY, size) != NULL, served, "{} bytes", size);
    }
}

#[test]
fn the_first_hole_that_fits_is_used() {
    let mut host = Host::new(128, 64);
    let bottom = host.data.linear_memory_allocator.bottom() as usize;
    assert_eq!(host.malloc(ALLOC_FOR_LINEAR_MEMORY, 24), bottom + 8);
    assert_eq!(host.malloc(ALLOC_FOR_LINEAR_MEMORY, 1000), NULL);
    assert_eq!(host.malloc(ALLOC_FOR_LINEAR_MEMORY, 24), bottom + 40);
    assert_eq!(host.malloc(ALLOC_FOR_LINEAR_MEMORY, 56), bottom + 72);
    assert_eq!(host.malloc(ALLOC_FOR_LINEAR_MEMORY, 0), NULL);
    assert_eq!(host.data.linear_memory_allocator.free(), 0);
}

#[test]
fn a_declined_realloc_leaves_the_block_alone() {
    let mut host = Host::new(128, 64);
    let ptr = host.malloc(ALLOC_FOR_LINEAR_MEMORY, 56);
    host.payload(ptr).fill(7);
    let used = host.data.linear_memory_allocator.used();
    assert_eq!(host.realloc(ALLOC_FOR_LINEAR_MEMORY, ptr, 120), NULL);
    assert_eq!(host.data.linear_memory_allocator.used(), used);
    assert!(host.given_back.is_empty());
    assert_eq!(host.payload(ptr).to_vec(), vec![7u8; 56]);
}

#[test]
fn a_header_without_a_layout_is_left_alone() {
    let mut host = create_test_data();
    for size in [usize::MAX, usize::MAX - HEADER_SIZE, isize::MAX as usize - 14] {
        let header = AllocationHeader { size };
        let usage = ALLOC_FOR_LINEAR_MEMORY;
        let free = Pending::Free { usage, ptr: 4096 };
        let realloc = Pending::Realloc { usage, ptr: 4096, size: 16 };
        for pending in [free, realloc] {
            let action = resume(&mut host.data, pending, header);
            assert_eq!(action, Action::Decline);
        }
    }
    assert_eq!(host.data.linear_memory_allocator.used(), 0);
}

#[test]
fn the_block_to_give_back_is_told_by_the_header() {
    let mut data = CustomMemoryPoolData::default();
    let header = AllocationHeader { size: 40 };
    assert_eq!(
        resume(&mut data, Pending::Free { usage: 7, ptr: 4096 }, header),
        Action::Close { usage: 7, block: Block { raw: 4088, size: 40 } }
    );
}

#[test]
fn a_replacement_takes_the_new_block_first() {
    let mut host = create_test_data();
    let bottom = host.data.runtime_memory_allocator.bottom() as usize;
    let usage = ALLOC_FOR_RUNTIME;
    let pending = Pending::Realloc { usage, ptr: 4096, size: 24 };
    let header = AllocationHeader { size: 40 };
    let action = resume(&mut host.data, pending, header);
    let from = Block { raw: 4088, size: 40 };
    let to = Block { raw: bottom, size: 24 };
    assert_eq!(action, Action::Move { usage, from, to });
    assert_eq!(action.answer(), bottom + 8);
}

#[test]
fn sizes_that_no_layout_goes_with_are_not_allocated() {
    let mut host = create_test_data();
    for size in [usize::MAX, usize::MAX - 7, isize::MAX as usize, isize::MAX as usize - 14] {
        assert_eq!(allocate(&mut host.data, ALLOC_FOR_LINEAR_MEMORY, size), None);
    }
    let bottom = host.data.linear_memory_allocator.bottom() as usize;
    assert_eq!(
        allocate(&mut host.data, ALLOC_FOR_LINEAR_MEMORY, 24),
        Some(Block { raw: bottom, size: 24 })
    );
}

#[test]
fn actions_are_answered_with_the_block_that_was_taken() {
    let block = Block { raw: 4088, size: 40 };
    let to = Block { raw: 8184, size: 80 };
    assert_eq!(Action::Decline.answer(), NULL);
    assert_eq!(Action::Open { block }.answer(), 4096);
    assert_eq!(Action::Close { usage: 0, block }.answer(), NULL);
    assert_eq!(Action::Move { usage: 0, from: block, to }.answer(), 8192);
}

#[test]
fn blocks_in_use_keep_their_bytes() {
    let mut host = create_test_data();
    let kept = host.malloc(ALLOC_FOR_LINEAR_MEMORY, 64);
    host.payload(kept).fill(0x11);
    let other = host.malloc(ALLOC_FOR_LINEAR_MEMORY, 32);
    host.payload(other).fill(0x22);
    let other = host.realloc(ALLOC_FOR_LINEAR_MEMORY, other, 96);
    host.free(ALLOC_FOR_LINEAR_MEMORY, other);
    assert_eq!(host.payload(kept).to_vec(), vec![0x11u8; 64]);
    host.free(ALLOC_FOR_LINEAR_MEMORY, kept);
    assert_eq!(host.given_back.len(), 3);
    assert!(host.blocks.is_empty());
}

#[test]
fn blocks_lie_in_the_memory_that_the_heap_was_set_up_with() {
    // A region that starts off a machine word: what is left of the words at its ends is not used.
    let memory = region_of(64 + 3 + 5);
    let start = memory.as_ptr() as usize;
    let region = &mut memory[3..67];
    let mut data = CustomMemoryPoolData::default();
    data.linear_memory_allocator.init_from_slice(region);
    assert_eq!(start % 8, 0);
    assert_eq!(data.linear_memory_allocator.bottom() as usize, start + 8);
    assert_eq!(data.linear_memory_allocator.size(), 56);
    let block = allocate(&mut data, ALLOC_FOR_LINEAR_MEMORY, 48).unwrap();
    assert_eq!(block, Block { raw: start + 8, size: 48 });
    assert_eq!(data.linear_memory_allocator.free(), 0);
}
