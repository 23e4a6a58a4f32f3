//! The host functions that modules can import.
use vstd::prelude::*;

verus! {

/// A host function: its name and the address of its code.
pub struct HostFunction {
    /// The name that modules import it by.
    pub function_name: String,
    /// The address of its code.
    pub function_ptr: usize,
}

impl View for HostFunction {
    type V = (Seq<char>, usize);

    open spec fn view(&self) -> (Seq<char>, usize) {
        (self.function_name@, self.function_ptr)
    }
}

/// The names and addresses of `functions`, in order.
pub open spec fn symbols(functions: Seq<HostFunction>) -> Seq<(Seq<char>, usize)> {
    functions.map_values(|function: HostFunction| function@)
}

/// The host functions of one module name, in the order of their registration.
pub struct HostFunctionList {
    /// The module that the functions are imported from.
    pub module_name: String,
    /// The functions.
    pub host_functions: Vec<HostFunction>,
}

impl HostFunctionList {
    /// The names and addresses of the functions, in the order of their registration.
    pub open spec fn symbols(self) -> Seq<(Seq<char>, usize)> {
        symbols(self.host_functions@)
    }

    /// An empty list for the module `module_name`.
    pub fn new(module_name: &str) -> (list: HostFunctionList)
        ensures
            list.module_name@ == module_name@,
            list.symbols() == Seq::<(Seq<char>, usize)>::empty(),
    {
        let list = HostFunctionList {
            module_name: module_name.to_owned(),
            host_functions: Vec::new(),
        };
        assert(list.symbols() =~= Seq::<(Seq<char>, usize)>::empty());
        list
    }

    /// Adds a function behind those that are registered already.
    pub fn register_host_function(&mut self, function_name: &str, function_ptr: usize)
        ensures
            final(self).module_name == old(self).module_name,
            final(self).symbols() == old(self).symbols().push((function_name@, function_ptr)),
    {
        self.host_functions.push(
            HostFunction { function_name: function_name.to_owned(), function_ptr },
        );
        assert(self.symbols() =~= old(self).symbols().push((function_name@, function_ptr)));
    }

    /// The module that the functions are imported from.
    pub fn get_module_name(&self) -> (name: String)
        ensures
            name@ == self.module_name@,
    {
        self.module_name.clone()
    }

    /// The functions, in the order of their registration.
    pub fn get_native_symbols(&self) -> (functions: Vec<HostFunction>)
        ensures
            symbols(functions@) == self.symbols(),
    {
        let mut functions: Vec<HostFunction> = Vec::new();
        let mut next: usize = 0;
        while next < self.host_functions.len()
            invariant
                next <= self.host_functions@.len(),
                symbols(functions@) == self.symbols().take(next as int),
            decreases self.host_functions@.len() - next,
        {
            let function = &self.host_functions[next];
            let ghost before = functions@;
            functions.push(
                HostFunction {
                    function_name: function.function_name.clone(),
                    function_ptr: function.function_ptr,
                },
            );
            assert(symbols(functions@) =~= symbols(before).push(function@));
            assert(self.symbols().take(next + 1) =~= self.symbols().take(next as int).push(
                self.symbols()[next as int],
            ));
            next = next + 1;
        }
        assert(self.symbols().take(next as int) =~= self.symbols());
        functions
    }
}

} // verus!
