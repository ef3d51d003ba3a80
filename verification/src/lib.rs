//! Device abstraction layer for GPU compute: device pointers and memory,
//! kernels, launch configuration, simulated backends, and the small pieces of
//! host-side logic (IR encoding, layer partitioning, tokenization, backend
//! selection) that sit around them.

pub mod error;
pub mod memory;
pub mod device;
pub mod kernel;
pub mod ir;
pub mod mock;
pub mod text;
pub mod sim;
pub mod vulkan_mock;
pub mod directx_mock;
pub mod registry;
pub mod multidev;
pub mod tokenizer;
pub mod rng;
pub mod simd;
pub mod autotune;
pub mod fmt;
pub mod vulkan;
pub mod directx;
pub mod llm;
pub mod gemm;
