//! The WebAssembly runtime and its builder.
//!
//! This is the main entry point for executing WebAssembly modules.  Every process should have
//! only one runtime.  The builder collects what the runtime is to be initialised with; the host
//! initialises WAMR with it and hands the outcome back.
use crate::host_function::{symbols, HostFunction, HostFunctionList};
use crate::pool::{CustomMemoryPoolData, PoolRegion, ALLOC_FOR_LINEAR_MEMORY, ALLOC_FOR_RUNTIME};
use vstd::prelude::*;

verus! {

/// Why there is no runtime.
#[derive(Clone, Copy, Debug, PartialEq, Eq, Structural)]
pub enum RuntimeError {
    /// WAMR could not be initialised.
    InitializationFailure,
}

/// Where WAMR takes its memory from.
#[derive(Clone, Copy, Debug, PartialEq, Eq, Structural)]
pub enum MemAllocType {
    /// A buffer that WAMR manages itself.
    Pool,
    /// The allocation calls of this library.
    Allocator,
    /// The allocator of the system.
    SystemAllocator,
}

/// How WAMR executes modules.
#[derive(Clone, Copy, Debug, PartialEq, Eq, Structural)]
pub enum RunningMode {
    /// What WAMR was built for.
    Default,
    /// The interpreter.
    Interp,
    /// Compilation with LLVM.
    LlvmJit,
}

/// What WAMR is initialised with.
pub struct RuntimeInitArgs {
    /// Where WAMR takes its memory from.
    pub mem_alloc_type: MemAllocType,
    /// How WAMR executes modules.
    pub running_mode: RunningMode,
    /// The optimisation level of compilation with LLVM.
    pub llvm_jit_opt_level: u32,
    /// The size level of compilation with LLVM.
    pub llvm_jit_size_level: u32,
    /// The module that the host functions are imported from.
    pub native_module_name: String,
    /// The number of host functions.
    pub n_native_symbols: u32,
    /// The host functions.
    pub native_symbols: Vec<HostFunction>,
}

impl RuntimeInitArgs {
    /// Everything is zero, or empty.
    pub open spec fn is_default(self) -> bool {
        &&& self.mem_alloc_type is Pool
        &&& self.running_mode is Default
        &&& self.llvm_jit_opt_level == 0
        &&& self.llvm_jit_size_level == 0
        &&& self.native_module_name@ == Seq::<char>::empty()
        &&& self.n_native_symbols == 0
        &&& self.native_symbols@ == Seq::<HostFunction>::empty()
    }
}

impl Default for RuntimeInitArgs {
    fn default() -> (args: RuntimeInitArgs)
        ensures
            args.is_default(),
    {
        RuntimeInitArgs {
            mem_alloc_type: MemAllocType::Pool,
            running_mode: RunningMode::Default,
            llvm_jit_opt_level: 0,
            llvm_jit_size_level: 0,
            native_module_name: String::new(),
            n_native_symbols: 0,
            native_symbols: Vec::new(),
        }
    }
}

/// An initialised runtime: it owns the memory pools and the host functions that WAMR uses.
pub struct Runtime {
    /// The host functions.
    pub host_functions: HostFunctionList,
    /// The memory pools.
    pub custom_memory_pool_data: Box<CustomMemoryPoolData>,
}

impl Runtime {
    /// A builder: an allocation mode and a running mode are to be selected on it.
    pub fn builder() -> (builder: RuntimeBuilder)
        ensures
            builder.is_default(),
    {
        RuntimeBuilder::default()
    }

    /// The runtime with the default configuration (system allocator, default running mode), given
    /// whether WAMR could be initialised.
    pub fn new(initialized: bool) -> (runtime: Result<Runtime, RuntimeError>)
        ensures
            runtime is Ok <==> initialized,
            runtime matches Ok(runtime) ==> {
                &&& runtime.host_functions.module_name@ == "empty"@
                &&& runtime.host_functions.symbols() == Seq::<(Seq<char>, usize)>::empty()
                &&& runtime.custom_memory_pool_data.is_empty()
            },
            runtime matches Err(error) ==> error == RuntimeError::InitializationFailure,
    {
        if initialized {
            Ok(
                Runtime {
                    host_functions: HostFunctionList::new("empty"),
                    custom_memory_pool_data: Box::new(CustomMemoryPoolData::default()),
                },
            )
        } else {
            Err(RuntimeError::InitializationFailure)
        }
    }
}

/// Configures a runtime.  Get one from [`Runtime::builder`].
pub struct RuntimeBuilder {
    /// What WAMR is to be initialised with.
    pub args: RuntimeInitArgs,
    /// The host functions that are registered.
    pub host_functions: HostFunctionList,
    /// The memory pools.
    pub custom_memory_pool_data: Box<CustomMemoryPoolData>,
}

impl RuntimeBuilder {
    /// Nothing is configured: no mode is selected, no host function is registered and there are
    /// no memory pools.
    pub open spec fn is_default(self) -> bool {
        &&& self.args.is_default()
        &&& self.host_functions.module_name@ == "host"@
        &&& self.host_functions.symbols() == Seq::<(Seq<char>, usize)>::empty()
        &&& self.custom_memory_pool_data.is_empty()
    }

    /// This builder with another allocation mode.
    pub open spec fn with_mem_alloc_type(self, mem_alloc_type: MemAllocType) -> RuntimeBuilder {
        RuntimeBuilder { args: RuntimeInitArgs { mem_alloc_type, ..self.args }, ..self }
    }

    /// This builder with another running mode.
    pub open spec fn with_running_mode(self, running_mode: RunningMode) -> RuntimeBuilder {
        RuntimeBuilder { args: RuntimeInitArgs { running_mode, ..self.args }, ..self }
    }

    /// This builder with other levels for compilation with LLVM.
    pub open spec fn with_llvm_jit_levels(self, opt_level: u32, size_level: u32) -> RuntimeBuilder {
        RuntimeBuilder {
            args: RuntimeInitArgs {
                llvm_jit_opt_level: opt_level,
                llvm_jit_size_level: size_level,
                ..self.args
            },
            ..self
        }
    }

    /// This builder with other memory behind its heaps.
    pub open spec fn with_pools(self, runtime: Box<[u8]>, linear: Box<[u8]>) -> RuntimeBuilder {
        RuntimeBuilder {
            custom_memory_pool_data: Box::new(
                CustomMemoryPoolData {
                    runtime_memory_pool: Some(runtime),
                    linear_memory_pool: Some(linear),
                    ..*self.custom_memory_pool_data
                },
            ),
            ..self
        }
    }
}

/// Without an allocation mode the arguments ask for a buffer that WAMR is to manage itself, but
/// name none: WAMR refuses to be initialised with them.
impl Default for RuntimeBuilder {
    fn default() -> (builder: RuntimeBuilder)
        ensures
            builder.is_default(),
    {
        RuntimeBuilder {
            args: RuntimeInitArgs::default(),
            host_functions: HostFunctionList::new("host"),
            custom_memory_pool_data: Box::new(CustomMemoryPoolData::default()),
        }
    }
}

impl RuntimeBuilder {
    /// System allocator mode: WAMR takes its memory from the allocator of the system.
    pub fn use_system_allocator(self) -> (builder: RuntimeBuilder)
        ensures
            builder == self.with_mem_alloc_type(MemAllocType::SystemAllocator),
    {
        let mut builder = self;
        builder.args.mem_alloc_type = MemAllocType::SystemAllocator;
        builder
    }

    /// Memory pool mode: WAMR takes its own memory and the linear memory of modules from two
    /// pools.
    pub fn use_memory_pool(
        self,
        runtime_memory_pool: Box<[u8]>,
        linear_memory_pool: Box<[u8]>,
    ) -> (builder: RuntimeBuilder)
        ensures
            builder == self.with_pools(
                runtime_memory_pool,
                linear_memory_pool,
            ).with_mem_alloc_type(MemAllocType::Allocator),
    {
        let mut builder = self;
        builder.custom_memory_pool_data.runtime_memory_pool = Some(runtime_memory_pool);
        builder.custom_memory_pool_data.linear_memory_pool = Some(linear_memory_pool);
        builder.args.mem_alloc_type = MemAllocType::Allocator;
        builder
    }

    /// Use interpreter mode.
    pub fn run_as_interpreter(self) -> (builder: RuntimeBuilder)
        ensures
            builder == self.with_running_mode(RunningMode::Interp),
    {
        let mut builder = self;
        builder.args.running_mode = RunningMode::Interp;
        builder
    }

    /// Use LLVM JIT mode.
    pub fn run_as_llvm_jit(self, opt_level: u32, size_level: u32) -> (builder: RuntimeBuilder)
        ensures
            builder == self.with_running_mode(RunningMode::LlvmJit).with_llvm_jit_levels(
                opt_level,
                size_level,
            ),
    {
        let mut builder = self;
        builder.args.running_mode = RunningMode::LlvmJit;
        builder.args.llvm_jit_opt_level = opt_level;
        builder.args.llvm_jit_size_level = size_level;
        builder
    }

    /// Registers a host function behind those that are registered already.
    pub fn register_host_function(self, function_name: &str, function_ptr: usize) -> (builder:
        RuntimeBuilder)
        ensures
            builder.args == self.args,
            builder.custom_memory_pool_data == self.custom_memory_pool_data,
            builder.host_functions.module_name == self.host_functions.module_name,
            builder.host_functions.symbols() == self.host_functions.symbols().push(
                (function_name@, function_ptr),
            ),
    {
        let mut builder = self;
        builder.host_functions.register_host_function(function_name, function_ptr);
        builder
    }

    /// Completes the arguments with the host functions and lists the pools that the heaps have to
    /// be set up with: all that is left to do before WAMR is initialised.
    pub fn prepare(&mut self) -> (regions: Vec<PoolRegion>)
        ensures
            final(self).host_functions == old(self).host_functions,
            final(self).custom_memory_pool_data == old(self).custom_memory_pool_data,
            final(self).args.mem_alloc_type == old(self).args.mem_alloc_type,
            final(self).args.running_mode == old(self).args.running_mode,
            final(self).args.llvm_jit_opt_level == old(self).args.llvm_jit_opt_level,
            final(self).args.llvm_jit_size_level == old(self).args.llvm_jit_size_level,
            final(self).args.native_module_name@ == old(self).host_functions.module_name@,
            symbols(final(self).args.native_symbols@) == old(self).host_functions.symbols(),
            final(self).args.n_native_symbols == old(self).host_functions.symbols().len()
                % 0x1_0000_0000,
            regions@ == old(self).custom_memory_pool_data.region(ALLOC_FOR_LINEAR_MEMORY) + old(
                self,
            ).custom_memory_pool_data.region(ALLOC_FOR_RUNTIME),
    {
        self.args.native_module_name = self.host_functions.get_module_name();
        let native_symbols = self.host_functions.get_native_symbols();
        assert(native_symbols@.len() == symbols(native_symbols@).len());
        self.args.n_native_symbols = (native_symbols.len() as u64 % 0x1_0000_0000) as u32;
        self.args.native_symbols = native_symbols;
        self.custom_memory_pool_data.init()
    }

    /// The runtime with this configuration, given whether WAMR could be initialised with the
    /// arguments.
    pub fn build(self, initialized: bool) -> (runtime: Result<Runtime, RuntimeError>)
        ensures
            runtime == if initialized {
                Ok(
                    Runtime {
                        host_functions: self.host_functions,
                        custom_memory_pool_data: self.custom_memory_pool_data,
                    },
                )
            } else {
                Err(RuntimeError::InitializationFailure)
            },
    {
        if initialized {
            Ok(
                Runtime {
                    host_functions: self.host_functions,
                    custom_memory_pool_data: self.custom_memory_pool_data,
                },
            )
        } else {
            Err(RuntimeError::InitializationFailure)
        }
    }
}

} // verus!
