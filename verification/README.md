# wamr_pool

Memory pools for the WebAssembly Micro Runtime (WAMR), verified with Verus.

WAMR can take its memory from two pools that its embedder supplies: one for the runtime itself and
one for the linear memory of modules. Each pool is served by a first-fit heap of the
`linked_list_allocator` crate. Every block starts with a header that records the size of its
payload, so that a block can be given back with the layout it was taken with.

- `src/heap.rs`: the heap as the library sees it. The contracts of the outside calls stand here.
- `src/block.rs`: headers and blocks, and the filling of a block from the one that it replaces.
- `src/pool.rs`: the two pools and the decisions on `malloc`, `free` and `realloc` calls. A call is
  answered with an `Action` for the host; the host is the only one that dereferences an address.
- `src/host_function.rs`, `src/runtime.rs`: host functions, the runtime and its builder.
- `src/laws.rs`: what holds across calls, such as that freeing undoes allocating, that blocks in use
  never overlap and never leave their pool, and that replacing a block keeps its payload.
- `app/`: the C callbacks that carry out the actions, and the initialisation of WAMR through the
  `wamr_sys` bindings. The bindings are built together with WAMR and are not listed in `Cargo.toml`.
- `tests/`: the library run on real heaps.
