use std::collections::BTreeMap;
use std::mem::MaybeUninit;
use wamr_pool::{
    free_func, malloc_func, realloc_func, resume, Action, AllocationHeader, ByteOrder, MemAllocType,
    PoolRegion, RunningMode, Runtime, RuntimeBuilder, RuntimeError, ALLOC_FOR_LINEAR_MEMORY,
    ALLOC_FOR_RUNTIME, HEADER_SIZE, NULL,
};

/// The byte order of this machine.
fn byte_order() -> ByteOrder {
    if 1u16.to_ne_bytes()[0] == 1 {
        ByteOrder::Little
    } else {
        ByteOrder::Big
    }
}

/// Stands in for WAMR: it is initialised with any allocation mode but the one that asks for a
/// buffer, and takes its own memory from the runtime pool.
struct Wamr {
    runtime: Runtime,
    blocks: BTreeMap<usize, Vec<u8>>,
}

fn build(mut builder: RuntimeBuilder) -> Result<Wamr, RuntimeError> {
    for region in builder.prepare() {
        let memory = Box::leak(vec![MaybeUninit::new(0u8); region.len].into_boxed_slice());
        builder.custom_memory_pool_data.allocator(region.usage).init_from_slice(memory);
    }
    let initialized = builder.args.mem_alloc_type != MemAllocType::Pool;
    let runtime = builder.build(initialized)?;
    Ok(Wamr { runtime, blocks: BTreeMap::new() })
}

impl Wamr {
    fn perform(&mut self, action: Action) -> usize {
        match action {
            Action::Decline => {}
            Action::Open { block } => {
                let mut bytes = vec![0u8; block.total()];
                AllocationHeader { size: block.size }.write(byte_order(), &mut bytes);
                self.blocks.insert(block.raw, bytes);
            }
            Action::Inspect { header, pending } => {
                let header = AllocationHeader::read(byte_order(), &self.blocks[&header]);
                let data = &mut self.runtime.custom_memory_pool_data;
                let next = resume(data, pending, header);
                return self.perform(next);
            }
            Action::Close { block, .. } => {
                self.blocks.remove(&block.raw).unwrap();
            }
            Action::Move { from, to, .. } => {
                let mut bytes = vec![0u8; to.total()];
                to.fill_from(byte_order(), &mut bytes, &from, &self.blocks[&from.raw]);
                self.blocks.insert(to.raw, bytes);
                self.blocks.remove(&from.raw).unwrap();
            }
        }
        action.answer()
    }

    fn malloc(&mut self, size: u32) -> usize {
        let data = &mut self.runtime.custom_memory_pool_data;
        let action = malloc_func(ALLOC_FOR_RUNTIME, Some(data), size);
        self.perform(action)
    }

    fn realloc(&mut self, ptr: usize, size: u32) -> usize {
        let data = &mut self.runtime.custom_memory_pool_data;
        let action = realloc_func(ALLOC_FOR_RUNTIME, false, Some(data), ptr, size);
        self.perform(action)
    }

    fn free(&mut self, ptr: usize) {
        let data = &mut self.runtime.custom_memory_pool_data;
        let action = free_func(ALLOC_FOR_RUNTIME, Some(data), ptr);
        self.perform(action);
    }

    fn payload(&mut self, ptr: usize) -> &mut [u8] {
        &mut self.blocks.get_mut(&(ptr - HEADER_SIZE)).unwrap()[HEADER_SIZE..]
    }
}

fn pooled() -> RuntimeBuilder {
    let runtime_pool = vec![0u8; 256 * 1024].into_boxed_slice();
    let linear_pool = vec![0u8; 64 * 1024].into_boxed_slice();
    Runtime::builder().use_memory_pool(runtime_pool, linear_pool)
}

#[test]
fn test_runtime_builder_default() {
    let runtime = build(Runtime::builder().use_system_allocator());
    assert!(runtime.is_ok());
}

#[test]
fn test_runtime_builder_interpreter() {
    let builder = Runtime::builder().run_as_interpreter().use_system_allocator();
    assert_eq!(builder.args.running_mode, RunningMode::Interp);
    let runtime = build(builder);
    assert!(runtime.is_ok());
}

#[test]
fn test_runtime_builder_llvm_jit() {
    let builder = Runtime::builder().run_as_llvm_jit(3, 3).use_system_allocator();
    assert_eq!(builder.args.running_mode, RunningMode::LlvmJit);
    assert_eq!(builder.args.llvm_jit_opt_level, 3);
    assert_eq!(builder.args.llvm_jit_size_level, 3);
    let runtime = build(builder);
    assert!(runtime.is_ok());
}

#[test]
fn test_runtime_builder_memory_pool() {
    let runtime = build(pooled());
    assert!(runtime.is_ok());
    let mut runtime = runtime.ok().unwrap();
    let ptr = runtime.malloc(16);
    assert!(ptr != NULL);
    runtime.free(ptr);
}

#[test]
fn test_runtime_builder_memory_pool_multiple_allocations() {
    let mut runtime = build(pooled()).ok().unwrap();
    let sizes = [16, 32, 64, 128, 256, 512, 1024, 4096];
    let mut allocations = Vec::new();
    for size in sizes {
        let ptr = runtime.malloc(size);
        assert!(ptr != NULL, "failed to allocate {} bytes", size);
        runtime.payload(ptr)[..size as usize].fill(0xAB);
        allocations.push(ptr);
    }
    for ptr in allocations {
        runtime.free(ptr);
    }
    let ptr = runtime.malloc(4096);
    assert!(ptr != NULL);
    runtime.free(ptr);
}

#[test]
fn test_runtime_builder_memory_pool_realloc() {
    let mut runtime = build(pooled()).ok().unwrap();
    let ptr = runtime.malloc(128);
    assert!(ptr != NULL);
    for i in 0..128 {
        runtime.payload(ptr)[i] = i as u8;
    }
    let ptr = runtime.realloc(ptr, 256);
    assert!(ptr != NULL);
    for i in 0..128 {
        assert_eq!(runtime.payload(ptr)[i], i as u8);
    }
    runtime.free(ptr);
}

#[test]
fn test_runtime_builder_memory_pool_realloc_shrink() {
    let mut runtime = build(pooled()).ok().unwrap();
    let ptr = runtime.malloc(4096);
    assert!(ptr != NULL);
    for i in 0..4096 {
        runtime.payload(ptr)[i] = (i & 0xff) as u8;
    }
    let ptr = runtime.realloc(ptr, 512);
    assert!(ptr != NULL);
    for i in 0..512 {
        assert_eq!(runtime.payload(ptr)[i], (i & 0xff) as u8);
    }
    runtime.free(ptr);
}

#[test]
fn test_runtime_builder_memory_pool_is_reusable_after_runtime_drop() {
    {
        let runtime = build(pooled());
        assert!(runtime.is_ok());
        let mut runtime = runtime.ok().unwrap();
        let ptr = runtime.malloc(4096);
        assert!(ptr != NULL);
        runtime.free(ptr);
        drop(runtime);
    }
    assert!(build(pooled()).ok().unwrap().malloc(4096) != NULL);
}

#[test]
fn a_runtime_is_there_if_and_only_if_wamr_was_initialized() {
    let runtime = Runtime::new(true).ok().unwrap();
    assert_eq!(runtime.host_functions.get_module_name(), "empty");
    assert!(runtime.host_functions.get_native_symbols().is_empty());
    assert!(runtime.custom_memory_pool_data.init().is_empty());
    assert_eq!(Runtime::new(false).err(), Some(RuntimeError::InitializationFailure));
    let builder = Runtime::builder().use_system_allocator();
    assert_eq!(builder.build(false).err(), Some(RuntimeError::InitializationFailure));
}

#[test]
fn a_builder_does_not_build_before_an_allocation_mode_is_selected() {
    assert_eq!(Runtime::builder().args.mem_alloc_type, MemAllocType::Pool);
    assert_eq!(build(Runtime::builder()).err(), Some(RuntimeError::InitializationFailure));
}

#[test]
fn a_new_builder_is_not_configured() {
    let builder = RuntimeBuilder::default();
    assert_eq!(builder.args.mem_alloc_type, MemAllocType::Pool);
    assert_eq!(builder.args.running_mode, RunningMode::Default);
    assert_eq!(builder.args.llvm_jit_opt_level, 0);
    assert_eq!(builder.args.llvm_jit_size_level, 0);
    assert_eq!(builder.args.n_native_symbols, 0);
    assert_eq!(builder.host_functions.get_module_name(), "host");
    assert!(builder.custom_memory_pool_data.init().is_empty());
}

#[test]
fn the_last_selection_of_a_mode_counts() {
    let builder = pooled().run_as_llvm_jit(2, 1).use_system_allocator().run_as_interpreter();
    assert_eq!(builder.args.mem_alloc_type, MemAllocType::SystemAllocator);
    assert_eq!(builder.args.running_mode, RunningMode::Interp);
    assert_eq!(builder.args.llvm_jit_opt_level, 2);
    assert_eq!(builder.args.llvm_jit_size_level, 1);
}

#[test]
fn memory_pools_are_set_up_for_both_usages() {
    let mut builder = pooled();
    assert_eq!(builder.args.mem_alloc_type, MemAllocType::Allocator);
    let linear = PoolRegion { usage: ALLOC_FOR_LINEAR_MEMORY, len: 64 * 1024 };
    let runtime = PoolRegion { usage: ALLOC_FOR_RUNTIME, len: 256 * 1024 };
    assert_eq!(builder.prepare(), vec![linear, runtime]);
}

#[test]
fn host_functions_are_handed_over_in_order() {
    let mut builder = Runtime::builder()
        .use_system_allocator()
        .register_host_function("extra", 0x1000)
        .register_host_function("other", 0x2000);
    assert!(builder.prepare().is_empty());
    assert_eq!(builder.args.native_module_name, "host");
    assert_eq!(builder.args.n_native_symbols, 2);
    let symbols = &builder.args.native_symbols;
    assert_eq!(symbols[0].function_name, "extra");
    assert_eq!(symbols[0].function_ptr, 0x1000);
    assert_eq!(symbols[1].function_name, "other");
    assert_eq!(symbols[1].function_ptr, 0x2000);
    let runtime = builder.build(true).ok().unwrap();
    assert_eq!(runtime.host_functions.get_native_symbols().len(), 2);
}
