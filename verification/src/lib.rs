//! Planning of mixture-of-experts matrix products on a CUDA device.
//!
//! The functions of this crate decide what a product needs (which operands are accepted, which
//! buffers are allocated, which kernels are launched, with which grid, which arguments and how
//! much shared memory) and hand the decisions back as a [`plan::Plan`]. Nothing here talks to a
//! device: the caller carries the plan out.
pub mod arith;
pub mod build_flags;
pub mod dtype;
pub mod embed;
pub mod embed_files;
pub mod error;
pub mod fault;
pub mod gemm;
pub mod gemm_laws;
pub mod gguf;
pub mod gguf_laws;
pub mod kernels;
pub mod laws;
pub mod offset_laws;
pub mod offsets;
pub mod plan;
pub mod run;
pub mod strip_laws;
pub mod tensor;
pub mod text;
