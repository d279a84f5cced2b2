# candle_moe

Mixture-of-experts matrix products on a CUDA device, planned by a verified library.

`moe_gemm` and `moe_gemm_gguf` look at the shapes, the element types and the places of their
operands and decide what is to be done: which buffers are allocated, which kernels are launched, in
which order, with which grid, which arguments and how much shared memory. The decision is a
`Plan`, a list of steps and the matrix or the error that comes of them. The contracts say exactly
which plan belongs to which request; `laws.rs` states what holds of every plan. `run.rs` says, step
by step, what comes of a plan when a step fails.

The rest of the library is about the kernels themselves: the registry of their modules, the CUDA
source that is embedded where they are compiled at run time, and the flags they are built with.

## Layout

- `src/arith.rs`, `dtype.rs`, `tensor.rs`, `error.rs`, `fault.rs`: sizes, types, operands, and what
  can be wrong with them.
- `src/plan.rs`, `offsets.rs`, `gemm.rs`, `gguf.rs`: plans, and the products that make them.
- `src/run.rs`: how a plan is carried out, and how that ends.
- `src/laws.rs`: what holds of every plan.
- `src/kernels.rs`, `text.rs`, `embed.rs`, `embed_files.rs`, `build_flags.rs`: the kernel modules and
  their build.
- `app/`: carries plans out on tensors of candle, and runs the build of the kernels. The part that
  needs a device is compiled with the feature `cuda`, and the kernel modules are there once the build
  script has run.
- `tests/`: the library from outside.

A request that a product is not meant for (sizes that overflow, operands whose depths differ) is no
error: `moe_gemm_fault` and `moe_gemm_gguf_fault` tell such a request from the others.
