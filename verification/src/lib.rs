//! Memory pools for the WebAssembly Micro Runtime (WAMR), and the configuration of its runtime.
//!
//! WAMR can be told to take all of its memory from two pools, one for itself and one for the
//! linear memory of modules.  This library decides what happens on each of WAMR's allocation
//! calls ([`pool`]), lays out the blocks that the calls hand out ([`block`]), and collects what
//! WAMR is initialised with ([`runtime`]).  The heaps behind the pools come from
//! `linked_list_allocator` ([`heap`]).  What holds of all of it together is proved in [`laws`],
//! and what the calls do to their arguments in [`call_laws`] and [`config_laws`].
pub mod block;
pub mod call_laws;
pub mod config_laws;
pub mod heap;
pub mod host_function;
pub mod laws;
pub mod pool;
pub mod runtime;

pub use block::{
    get_header, is_storable, AllocationHeader, Block, ByteOrder, ALIGNMENT, HEADER_SIZE, NULL,
};
pub use host_function::{HostFunction, HostFunctionList};
pub use pool::{
    allocate, free_func, malloc_func, realloc_func, resume, Action, CustomMemoryPoolData, Pending,
    PoolRegion, ALLOC_FOR_LINEAR_MEMORY, ALLOC_FOR_RUNTIME,
};
pub use runtime::{
    MemAllocType, RunningMode, Runtime, RuntimeBuilder, RuntimeError, RuntimeInitArgs,
};
