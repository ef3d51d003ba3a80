# opencuda

A device abstraction layer for GPU compute, in the shape of the CUDA runtime:
device pointers and memory, kernels and launch configurations, a device
registry, and simulated Vulkan and DirectX backends, together with the
host-side decisions of the real backends. The library is written in Verus;
its contracts describe each operation over mathematical models (device memory
as a map from allocation handle to bytes, encodings as byte sequences, text as
character sequences), and Verus proves the code against them.

## Layout

- `src/` — the verified library.
  - `memory`, `device`, `kernel`, `error`: device pointers, the allocation
    model and its laws, the `GpuDevice` contract, launch configurations,
    kernel sources and arguments, failures and their texts.
  - `mock`, `vulkan_mock`, `directx_mock`, `sim`: backends that need no GPU;
    the two path simulators run `vector_add` with a caller-supplied element
    addition.
  - `ir`: the OmniIR byte form, its decoder and lowering.
  - `registry`, `multidev`: device lookup and selection, and splitting model
    layers over devices by memory.
  - `vulkan`, `directx`: what the real backends decide without the driver
    (device, queue and memory-type choice, argument contracts, diagnostics).
  - `autotune`, `gemm`, `simd`: GEMM path, offload policy and plan, the
    argument contracts and routing of GEMM, attention and quantisation, CPU
    features and the int8 dot product.
  - `llm`, `tokenizer`, `rng`: the integer side of the language-model front
    end (argument, configuration and token-id checks, the driver and rounds
    of speculative decoding and their greedy-equivalence laws), the byte
    tokenizer, SplitMix64.
  - `fmt`, `text`: writing numbers as text, and string comparison.
- `tests/` — tests of the library on concrete values.
- `app/` — the parts that drive hardware or the host: the CPU backend that
  runs native kernels with `rayon`, CPU feature detection, the environment
  policy, and the real Vulkan backend on `ash`.
