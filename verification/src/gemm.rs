//! The argument contract of dense GEMM, `c = alpha * a * b + beta * c` with
//! row-major `a` of `m × k`, `b` of `k × n` and `c` of `m × n`.

use vstd::prelude::*;
use crate::error::Error;
use crate::autotune::GemmPath;

verus! {

/// The operand lengths of a GEMM, checked in the order `a`, `b`, `c`.
pub open spec fn gemm_lengths(
    m: usize,
    k: usize,
    n: usize,
    a_len: usize,
    b_len: usize,
    c_len: usize,
) -> Result<(), Error> {
    if a_len != m * k {
        Err(Error::GemmLength { operand: "a", dims: "m*k", len: a_len, expected: (m * k) as usize })
    } else if b_len != k * n {
        Err(Error::GemmLength { operand: "b", dims: "k*n", len: b_len, expected: (k * n) as usize })
    } else if c_len != m * n {
        Err(Error::GemmLength { operand: "c", dims: "m*n", len: c_len, expected: (m * n) as usize })
    } else {
        Ok(())
    }
}

/// Check that the operands of an `m × k` by `k × n` GEMM have the lengths the
/// shapes call for.
pub fn check_gemm_lengths(
    m: usize,
    k: usize,
    n: usize,
    a_len: usize,
    b_len: usize,
    c_len: usize,
) -> (r: Result<(), Error>)
    requires
        m * k <= usize::MAX,
        k * n <= usize::MAX,
        m * n <= usize::MAX,
    ensures
        r == gemm_lengths(m, k, n, a_len, b_len, c_len),
        r is Ok <==> (a_len == m * k && b_len == k * n && c_len == m * n),
{
    let mk = m * k;
    let kn = k * n;
    let mn = m * n;
    if a_len != mk {
        return Err(Error::GemmLength { operand: "a", dims: "m*k", len: a_len, expected: mk });
    }
    if b_len != kn {
        return Err(Error::GemmLength { operand: "b", dims: "k*n", len: b_len, expected: kn });
    }
    if c_len != mn {
        return Err(Error::GemmLength { operand: "c", dims: "m*n", len: c_len, expected: mn });
    }
    Ok(())
}

/// How `sgemm` runs once its path is chosen.
#[derive(Debug, Clone, Copy, PartialEq, Eq, Structural)]
pub enum SgemmRoute {
    /// The naive kernel on the device, with the full operand check.
    Naive,
    /// The Vulkan matmul shader, scaled by `alpha` and `beta` on the host.
    Vulkan,
}

/// The route of `sgemm` on a path: the CPU path runs the naive kernel; the
/// Vulkan path needs the shader bytes and a `c` of `m × n`; the other paths
/// have no kernels yet.
pub open spec fn spec_sgemm_route(path: GemmPath, has_spirv: bool, m: usize, n: usize, c_len: usize) -> Result<
    SgemmRoute,
    Error,
> {
    match path {
        GemmPath::CpuNaive => Ok(SgemmRoute::Naive),
        GemmPath::VulkanGeneric => if !has_spirv {
            Err(Error::Argument(SGEMM_NO_SPIRV))
        } else if c_len != m * n {
            Err(Error::GemmLength { operand: "c", dims: "m*n", len: c_len, expected: (m * n) as usize })
        } else {
            Ok(SgemmRoute::Vulkan)
        },
        _ => Err(Error::GemmBackendMissing(path)),
    }
}

/// The refusal of the Vulkan path without shader bytes.
pub const SGEMM_NO_SPIRV: &'static str = "sgemm: GemmPath::VulkanGeneric selected (device.supports_spirv()==true, vendor-specific path is still a stub) but no spirv bytes were provided; pass the compiled matmul.spv bytes via the `spirv` argument";

/// Decide how `sgemm` runs (see `spec_sgemm_route`).
pub fn sgemm_route(path: GemmPath, has_spirv: bool, m: usize, n: usize, c_len: usize) -> (r: Result<
    SgemmRoute,
    Error,
>)
    requires
        m * n <= usize::MAX,
    ensures
        r == spec_sgemm_route(path, has_spirv, m, n, c_len),
{
    match path {
        GemmPath::CpuNaive => Ok(SgemmRoute::Naive),
        GemmPath::VulkanGeneric => {
            if !has_spirv {
                return Err(Error::Argument(SGEMM_NO_SPIRV));
            }
            let mn = m * n;
            if c_len != mn {
                return Err(Error::GemmLength { operand: "c", dims: "m*n", len: c_len, expected: mn });
            }
            Ok(SgemmRoute::Vulkan)
        },
        _ => Err(Error::GemmBackendMissing(path)),
    }
}

/// The argument contract of flash attention, checked in this order: `q`,
/// `k` and `v` each hold `seq_len × head_dim` values, and the block size is
/// positive.
pub open spec fn attention_args(
    q_len: usize,
    k_len: usize,
    v_len: usize,
    seq_len: usize,
    head_dim: usize,
    block_size: usize,
) -> Result<(), Error> {
    let e = (seq_len * head_dim) as usize;
    if q_len != seq_len * head_dim {
        Err(Error::AttentionLength { operand: "q", len: q_len, expected: e })
    } else if k_len != seq_len * head_dim {
        Err(Error::AttentionLength { operand: "k", len: k_len, expected: e })
    } else if v_len != seq_len * head_dim {
        Err(Error::AttentionLength { operand: "v", len: v_len, expected: e })
    } else if block_size == 0 {
        Err(Error::Argument("flash_attention: block_size must be > 0"))
    } else {
        Ok(())
    }
}

/// Check the arguments of flash attention (see `attention_args`).
pub fn check_attention_args(
    q_len: usize,
    k_len: usize,
    v_len: usize,
    seq_len: usize,
    head_dim: usize,
    block_size: usize,
) -> (r: Result<(), Error>)
    requires
        seq_len * head_dim <= usize::MAX,
    ensures
        r == attention_args(q_len, k_len, v_len, seq_len, head_dim, block_size),
{
    let e = seq_len * head_dim;
    if q_len != e {
        return Err(Error::AttentionLength { operand: "q", len: q_len, expected: e });
    }
    if k_len != e {
        return Err(Error::AttentionLength { operand: "k", len: k_len, expected: e });
    }
    if v_len != e {
        return Err(Error::AttentionLength { operand: "v", len: v_len, expected: e });
    }
    if block_size == 0 {
        return Err(Error::Argument("flash_attention: block_size must be > 0"));
    }
    Ok(())
}

/// Check the arguments of group quantisation: a non-empty input and a
/// positive group size, in that order.
pub fn check_quantize_args(input_len: usize, group_size: usize) -> (r: Result<(), Error>)
    ensures
        input_len == 0 ==> r == Err::<(), Error>(Error::Argument("quantize: input must not be empty")),
        input_len > 0 && group_size == 0 ==> r == Err::<(), Error>(
            Error::Argument("quantize: group_size must be > 0"),
        ),
        input_len > 0 && group_size > 0 ==> r is Ok,
{
    if input_len == 0 {
        return Err(Error::Argument("quantize: input must not be empty"));
    }
    if group_size == 0 {
        return Err(Error::Argument("quantize: group_size must be > 0"));
    }
    Ok(())
}

} // verus!
