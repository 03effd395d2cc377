# holochain_wasmer

Host/guest plumbing for wasm modules, verified with Verus.

A wasm host and a guest share the guest's linear memory. Values cross the
boundary as bytes: one side leaks a serialized value into memory and hands
over a pointer and a length (packed into one integer, or stored as an
*allocation*, a 16-byte offset/length pair whose own pointer crosses); the
other side copies the bytes out and frees them. This crate states and proves
what each step of that exchange does over a model of the guest's linear
memory and allocator, and, on the host's side against a real wasmer
instance, what the host does with each answer of the guest and of wasmer:
the wasmer calls themselves (the guest's allocator, memory reads and writes,
the compiler) are trusted, and nothing is proved of what a guest does inside
them or of which bytes a write leaves in the instance's memory. A handle
that belongs to another store is told apart before wasmer is called with it
and reported as a `Memory` error. Each of the host's moves and reads
returns, beside its result, the record of every call it made into the
instance (what it asked the allocator for, what it wrote or read where,
what it asked to free), and the contracts say exactly what those calls
were and what comes of each answer.

## Layout

- `src/` — the verified library.
  - `linear_memory` — the model of a wasm linear memory and the first-fit
    allocator that hands out its regions; the well-formedness invariant and
    the lemmas about placing, growing and freeing blocks.
  - `numeric` — packing two integers into one of twice the width and back.
  - `allocation`, `bytes`, `string`, `allocate` — allocations, byte vectors
    and strings handed across by allocation pointer.
  - `guest_allocation`, `guest`, `guest_map` — the guest's side: leaking and
    consuming bytes, returning values to the host, calling into the host.
  - `leak_batch` — a batch of leaks freed afterwards leaves the allocator as
    it was, and the same batch leaked again grows no page.
  - `host_guest`, `host_bytes`, `host_allocation`, `guest_call`, `env` — the
    host's side over the model: checked reads and writes of guest memory, the
    environment behind host functions (guest memory and metering globals).
  - `host_env` — the host's side against wasmer: moving data into a guest
    instance and consuming it back, through wasmer's memory and the guest's
    exported allocator.
  - `module_build` — compiling a module from wasm bytes with wasmer, and
    the `ModuleBuild` error a refused module gives.
  - `call`, `module_cache` — the decisions of a host calling a guest function
    and of a module cache lookup, as steps from state and event to next state
    and action.
  - `plru`, `deserialized_cache` — the bit pseudo-LRU tracker of 64 lines and
    the in-memory cache of deserialized modules that evicts by it.
  - `result`, `error`, `host_error` — the error model.
  - `slice`, `fat_ptr`, `payloads`, `wasms` — the offset/length newtypes, the
    payload types of the example guests, and the example modules' names and
    cache keys.
- `tests/` — tests of the library on concrete values.
- `app/` — the unverified edge: serde copies of the error types, the guest's
  encoding and decoding, the wasmer loop that runs the call steps against an
  instance, and the module cache's engines and filesystem work.
