//! What the calls that configure a runtime do, seen from outside.
//!
//! As in [`crate::call_laws`], each law speaks of calls that have returned, and says of the fields
//! of their results what must hold of them.
use crate::call_laws::{free_for, lemma_regions, lists_pool};
use crate::host_function::{symbols, HostFunction, HostFunctionList};
use crate::pool::{PoolRegion, ALLOC_FOR_LINEAR_MEMORY, ALLOC_FOR_RUNTIME};
use crate::runtime::{Runtime, RuntimeBuilder, RuntimeError, RuntimeInitArgs};
use vstd::prelude::*;

verus! {

/// In memory pool mode the runtime has the first pool for itself and the second for linear memory,
/// whatever their sizes, and nothing else of the configuration changes.
pub proof fn law_memory_pools_go_to_their_usages(
    builder: RuntimeBuilder,
    runtime_memory_pool: Box<[u8]>,
    linear_memory_pool: Box<[u8]>,
    pooled: RuntimeBuilder,
)
    requires
        call_ensures(
            RuntimeBuilder::use_memory_pool,
            (builder, runtime_memory_pool, linear_memory_pool),
            pooled,
        ),
    ensures
        pooled.custom_memory_pool_data.runtime_memory_pool == Some(runtime_memory_pool),
        pooled.custom_memory_pool_data.linear_memory_pool == Some(linear_memory_pool),
        pooled.args.mem_alloc_type is Allocator,
        pooled.custom_memory_pool_data.runtime_memory_allocator
            == builder.custom_memory_pool_data.runtime_memory_allocator,
        pooled.custom_memory_pool_data.linear_memory_allocator
            == builder.custom_memory_pool_data.linear_memory_allocator,
        pooled.host_functions == builder.host_functions,
        pooled.args.running_mode == builder.args.running_mode,
        pooled.args.llvm_jit_opt_level == builder.args.llvm_jit_opt_level,
        pooled.args.llvm_jit_size_level == builder.args.llvm_jit_size_level,
        pooled.args.native_module_name == builder.args.native_module_name,
        pooled.args.n_native_symbols == builder.args.n_native_symbols,
        pooled.args.native_symbols == builder.args.native_symbols,
{
}

/// The pools that a builder was given are the ones that are set up, each for its usage and whole.
pub proof fn law_memory_pools_are_set_up_for_their_usages(
    builder: RuntimeBuilder,
    runtime_memory_pool: Box<[u8]>,
    linear_memory_pool: Box<[u8]>,
    pooled: &mut RuntimeBuilder,
    regions: Vec<PoolRegion>,
)
    requires
        call_ensures(
            RuntimeBuilder::use_memory_pool,
            (builder, runtime_memory_pool, linear_memory_pool),
            *pooled,
        ),
        call_ensures(RuntimeBuilder::prepare, (pooled,), regions),
    ensures
        lists_pool(regions@, ALLOC_FOR_RUNTIME, Some(runtime_memory_pool)),
        lists_pool(regions@, ALLOC_FOR_LINEAR_MEMORY, Some(linear_memory_pool)),
        final(pooled).args.mem_alloc_type is Allocator,
{
    lemma_regions(*pooled.custom_memory_pool_data, regions@);
}

/// System allocator mode changes the allocation mode and nothing else.
pub proof fn law_system_allocator_changes_the_allocation_mode_only(
    builder: RuntimeBuilder,
    selected: RuntimeBuilder,
)
    requires
        call_ensures(RuntimeBuilder::use_system_allocator, (builder,), selected),
    ensures
        selected.args.mem_alloc_type is SystemAllocator,
        selected.args.running_mode == builder.args.running_mode,
        selected.args.llvm_jit_opt_level == builder.args.llvm_jit_opt_level,
        selected.args.llvm_jit_size_level == builder.args.llvm_jit_size_level,
        selected.args.native_module_name == builder.args.native_module_name,
        selected.args.n_native_symbols == builder.args.n_native_symbols,
        selected.args.native_symbols == builder.args.native_symbols,
        selected.host_functions == builder.host_functions,
        selected.custom_memory_pool_data == builder.custom_memory_pool_data,
{
}

/// Interpreter mode changes the running mode and nothing else.
pub proof fn law_interpreter_changes_the_running_mode_only(
    builder: RuntimeBuilder,
    selected: RuntimeBuilder,
)
    requires
        call_ensures(RuntimeBuilder::run_as_interpreter, (builder,), selected),
    ensures
        selected.args.running_mode is Interp,
        selected.args.mem_alloc_type == builder.args.mem_alloc_type,
        selected.args.llvm_jit_opt_level == builder.args.llvm_jit_opt_level,
        selected.args.llvm_jit_size_level == builder.args.llvm_jit_size_level,
        selected.args.native_module_name == builder.args.native_module_name,
        selected.args.n_native_symbols == builder.args.n_native_symbols,
        selected.args.native_symbols == builder.args.native_symbols,
        selected.host_functions == builder.host_functions,
        selected.custom_memory_pool_data == builder.custom_memory_pool_data,
{
}

/// LLVM JIT mode changes the running mode and takes over both levels as they are given.
pub proof fn law_llvm_jit_takes_over_its_levels(
    builder: RuntimeBuilder,
    opt_level: u32,
    size_level: u32,
    selected: RuntimeBuilder,
)
    requires
        call_ensures(
            RuntimeBuilder::run_as_llvm_jit,
            (builder, opt_level, size_level),
            selected,
        ),
    ensures
        selected.args.running_mode is LlvmJit,
        selected.args.llvm_jit_opt_level == opt_level,
        selected.args.llvm_jit_size_level == size_level,
        selected.args.mem_alloc_type == builder.args.mem_alloc_type,
        selected.args.native_module_name == builder.args.native_module_name,
        selected.args.n_native_symbols == builder.args.n_native_symbols,
        selected.args.native_symbols == builder.args.native_symbols,
        selected.host_functions == builder.host_functions,
        selected.custom_memory_pool_data == builder.custom_memory_pool_data,
{
}

/// `functions` are the same names and addresses as `others`, in the same order.
pub open spec fn same_functions(functions: Seq<HostFunction>, others: Seq<HostFunction>) -> bool {
    &&& functions.len() == others.len()
    &&& forall|i: int|
        0 <= i < functions.len() ==> (#[trigger] functions[i]).function_name@
            == others[i].function_name@ && functions[i].function_ptr == others[i].function_ptr
}

/// `functions` are `others` with one more function of the given name and address at the end.
pub open spec fn one_more_function(
    functions: Seq<HostFunction>,
    others: Seq<HostFunction>,
    name: Seq<char>,
    ptr: usize,
) -> bool {
    &&& functions.len() == others.len() + 1
    &&& same_functions(functions.drop_last(), others)
    &&& functions.last().function_name@ == name
    &&& functions.last().function_ptr == ptr
}

/// Equal symbols are the same functions.
proof fn lemma_same_functions(functions: Seq<HostFunction>, others: Seq<HostFunction>)
    requires
        symbols(functions) == symbols(others),
    ensures
        same_functions(functions, others),
{
    let a = symbols(functions);
    let b = symbols(others);
    assert(a.len() == functions.len() && b.len() == others.len());
    assert forall|i: int| 0 <= i < functions.len() implies (#[trigger] functions[i]).function_name@
        == others[i].function_name@ && functions[i].function_ptr == others[i].function_ptr by {
        assert(a[i] == functions[i]@);
        assert(b[i] == others[i]@);
    }
}

/// One more symbol is one more function.
proof fn lemma_one_more_function(
    functions: Seq<HostFunction>,
    others: Seq<HostFunction>,
    name: Seq<char>,
    ptr: usize,
)
    requires
        symbols(functions) == symbols(others).push(
            (name, ptr),
        ),
    ensures
        one_more_function(functions, others, name, ptr),
{
    let a = symbols(functions);
    let b = symbols(others);
    assert(a.len() == functions.len() && b.len() == others.len());
    assert(a[a.len() - 1] == functions.last()@);
    assert(symbols(functions.drop_last()) =~= b) by {
        assert forall|i: int| 0 <= i < b.len() implies symbols(
            functions.drop_last(),
        )[i] == b[i] by {
            assert(a[i] == functions[i]@);
            assert(b.push((name, ptr))[i] == b[i]);
        }
    }
    lemma_same_functions(functions.drop_last(), others);
}

/// A host function is registered behind the others, under its name and with its address, and
/// nothing else of the configuration changes.
pub proof fn law_builder_registers_in_order(
    builder: RuntimeBuilder,
    name: &str,
    ptr: usize,
    registered: RuntimeBuilder,
)
    requires
        call_ensures(RuntimeBuilder::register_host_function, (builder, name, ptr), registered),
    ensures
        one_more_function(
            registered.host_functions.host_functions@,
            builder.host_functions.host_functions@,
            name@,
            ptr,
        ),
        registered.host_functions.module_name == builder.host_functions.module_name,
        registered.args == builder.args,
        registered.custom_memory_pool_data == builder.custom_memory_pool_data,
{
    lemma_one_more_function(
        registered.host_functions.host_functions@,
        builder.host_functions.host_functions@,
        name@,
        ptr,
    );
}

/// A list grows at its end, by the function that is registered.
pub proof fn law_list_registers_in_order(list: &mut HostFunctionList, name: &str, ptr: usize)
    requires
        call_ensures(HostFunctionList::register_host_function, (list, name, ptr), ()),
    ensures
        one_more_function(final(list).host_functions@, old(list).host_functions@, name@, ptr),
        final(list).module_name == old(list).module_name,
{
    lemma_one_more_function(final(list).host_functions@, old(list).host_functions@, name@, ptr);
}

/// A new list has the given name and no functions.
pub proof fn law_new_list_is_empty(name: &str, list: HostFunctionList)
    requires
        call_ensures(HostFunctionList::new, (name,), list),
    ensures
        list.module_name@ == name@,
        list.host_functions@.len() == 0,
{
    assert(list.symbols().len() == list.host_functions@.len());
}

/// A list hands out its module name and its functions as they are.
pub proof fn law_list_hands_out_what_it_holds(
    list: HostFunctionList,
    name: String,
    functions: Vec<HostFunction>,
)
    requires
        call_ensures(HostFunctionList::get_module_name, (&list,), name),
        call_ensures(HostFunctionList::get_native_symbols, (&list,), functions),
    ensures
        name@ == list.module_name@,
        same_functions(functions@, list.host_functions@),
{
    lemma_same_functions(functions@, list.host_functions@);
}

/// A function that is registered reaches WAMR: the last of the host functions that WAMR is
/// initialised with is the one that was registered last, and those in front of it are the ones
/// that were registered before.
pub proof fn law_registered_functions_reach_wamr(
    builder: RuntimeBuilder,
    name: &str,
    ptr: usize,
    registered: &mut RuntimeBuilder,
    regions: Vec<PoolRegion>,
)
    requires
        call_ensures(RuntimeBuilder::register_host_function, (builder, name, ptr), *registered),
        call_ensures(RuntimeBuilder::prepare, (registered,), regions),
    ensures
        one_more_function(
            final(registered).args.native_symbols@,
            builder.host_functions.host_functions@,
            name@,
            ptr,
        ),
        final(registered).args.native_module_name@ == builder.host_functions.module_name@,
{
    lemma_one_more_function(
        final(registered).args.native_symbols@,
        builder.host_functions.host_functions@,
        name@,
        ptr,
    );
}

/// What WAMR is initialised with are the modes that were selected and all the host functions that
/// were registered, with their module; what is set up is every pool that there is.
pub proof fn law_preparation_hands_over_the_configuration(
    builder: &mut RuntimeBuilder,
    regions: Vec<PoolRegion>,
)
    requires
        call_ensures(RuntimeBuilder::prepare, (builder,), regions),
    ensures
        final(builder).args.mem_alloc_type == old(builder).args.mem_alloc_type,
        final(builder).args.running_mode == old(builder).args.running_mode,
        final(builder).args.llvm_jit_opt_level == old(builder).args.llvm_jit_opt_level,
        final(builder).args.llvm_jit_size_level == old(builder).args.llvm_jit_size_level,
        final(builder).args.native_module_name@ == old(builder).host_functions.module_name@,
        same_functions(
            final(builder).args.native_symbols@,
            old(builder).host_functions.host_functions@,
        ),
        final(builder).args.n_native_symbols == old(builder).host_functions.host_functions@.len()
            % 0x1_0000_0000,
        final(builder).host_functions == old(builder).host_functions,
        final(builder).custom_memory_pool_data == old(builder).custom_memory_pool_data,
        lists_pool(
            regions@,
            ALLOC_FOR_LINEAR_MEMORY,
            old(builder).custom_memory_pool_data.linear_memory_pool,
        ),
        lists_pool(
            regions@,
            ALLOC_FOR_RUNTIME,
            old(builder).custom_memory_pool_data.runtime_memory_pool,
        ),
        forall|i: int|
            0 <= i < regions@.len() ==> #[trigger] regions@[i].usage == ALLOC_FOR_LINEAR_MEMORY
                || regions@[i].usage == ALLOC_FOR_RUNTIME,
{
    lemma_regions(*builder.custom_memory_pool_data, regions@);
    lemma_same_functions(
        final(builder).args.native_symbols@,
        old(builder).host_functions.host_functions@,
    );
    assert(old(builder).host_functions.symbols().len() == old(
        builder).host_functions.host_functions@.len());
}

/// There is a runtime if and only if WAMR could be initialised, and it then owns the pools and the
/// host functions that were configured; otherwise the failure is reported.
pub proof fn law_runtime_is_built_as_configured(
    builder: RuntimeBuilder,
    initialized: bool,
    built: Result<Runtime, RuntimeError>,
)
    requires
        call_ensures(RuntimeBuilder::build, (builder, initialized), built),
    ensures
        built is Ok <==> initialized,
        built matches Ok(runtime) ==> {
            &&& runtime.host_functions == builder.host_functions
            &&& runtime.custom_memory_pool_data == builder.custom_memory_pool_data
        },
        built matches Err(error) ==> error is InitializationFailure,
{
}

/// The default runtime has no pools and no host functions, and there is one if and only if WAMR
/// could be initialised.
pub proof fn law_default_runtime(initialized: bool, runtime: Result<Runtime, RuntimeError>)
    requires
        call_ensures(Runtime::new, (initialized,), runtime),
    ensures
        runtime is Ok <==> initialized,
        runtime matches Ok(runtime) ==> {
            &&& runtime.host_functions.module_name@ == "empty"@
            &&& runtime.host_functions.host_functions@.len() == 0
            &&& runtime.custom_memory_pool_data.linear_memory_pool is None
            &&& runtime.custom_memory_pool_data.runtime_memory_pool is None
            &&& forall|b: int|
                !(#[trigger] free_for(
                    *runtime.custom_memory_pool_data,
                    ALLOC_FOR_RUNTIME,
                ).contains(b))
            &&& forall|b: int|
                !(#[trigger] free_for(
                    *runtime.custom_memory_pool_data,
                    ALLOC_FOR_LINEAR_MEMORY,
                ).contains(b))
        },
        runtime matches Err(error) ==> error is InitializationFailure,
{
    if let Ok(runtime) = runtime {
        assert(runtime.host_functions.symbols().len()
            == runtime.host_functions.host_functions@.len());
    }
}

/// A new builder has nothing configured: the arguments are zero or empty, the module of the host
/// functions is named and has none, and there are no pools.
pub proof fn law_new_builder_is_not_configured(builder: RuntimeBuilder)
    requires
        call_ensures(Runtime::builder, (), builder) || call_ensures(
            <RuntimeBuilder as Default>::default,
            (),
            builder,
        ),
    ensures
        builder.args.mem_alloc_type is Pool,
        builder.args.running_mode is Default,
        builder.args.llvm_jit_opt_level == 0,
        builder.args.llvm_jit_size_level == 0,
        builder.args.n_native_symbols == 0,
        builder.args.native_symbols@.len() == 0,
        builder.args.native_module_name@.len() == 0,
        builder.host_functions.module_name@ == "host"@,
        builder.host_functions.host_functions@.len() == 0,
        builder.custom_memory_pool_data.linear_memory_pool is None,
        builder.custom_memory_pool_data.runtime_memory_pool is None,
        forall|b: int|
            !(#[trigger] free_for(*builder.custom_memory_pool_data, ALLOC_FOR_RUNTIME).contains(b)),
        forall|b: int|
            !(#[trigger] free_for(
                *builder.custom_memory_pool_data,
                ALLOC_FOR_LINEAR_MEMORY,
            ).contains(b)),
{
    assert(builder.host_functions.symbols().len() == builder.host_functions.host_functions@.len());
}

/// New arguments are zero or empty.
pub proof fn law_new_arguments_are_empty(args: RuntimeInitArgs)
    requires
        call_ensures(<RuntimeInitArgs as Default>::default, (), args),
    ensures
        args.mem_alloc_type is Pool,
        args.running_mode is Default,
        args.llvm_jit_opt_level == 0,
        args.llvm_jit_size_level == 0,
        args.n_native_symbols == 0,
        args.native_symbols@.len() == 0,
        args.native_module_name@.len() == 0,
{
}

} // verus!
