//! Failures of the device layer.
//!
//! `GpuError` holds the few failures that a CUDA-compatible front end has to turn
//! into an integer `cudaError_t`; `Error` is what every fallible operation of the
//! library returns, with `GpuError` as one of its cases.

use vstd::prelude::*;
use crate::memory::DevicePtr;
use crate::autotune::{GemmPath, gemm_path_name, spec_gemm_path_name};
use crate::llm::{ConfigFault, config_fault_text, write_config_fault};
use crate::fmt::{append_decimal, append_hex_padded, decimal, hex_padded};

verus! {

/// The representative failures that map onto CUDA runtime error codes.
#[derive(Debug, Clone, PartialEq, Eq)]
pub enum GpuError {
    /// An allocation or a copy needed more bytes than the device offers.
    OutOfMemory(usize),
    /// The pointer does not name a live allocation of this device.
    InvalidPtr(DevicePtr),
    /// No device is available.
    NoDevice,
    /// A kernel launch failed for the stated reason.
    LaunchFailed(String),
    /// The backend does not accept kernels of this source kind.
    UnsupportedKernel(&'static str),
    /// A device index past the end of the registry.
    DeviceOutOfRange { requested: usize, available: usize },
}

/// The CUDA runtime error code of each failure.
pub open spec fn spec_cuda_code(e: GpuError) -> i32 {
    match e {
        GpuError::OutOfMemory(_) => 2,
        GpuError::InvalidPtr(_) => 1,
        GpuError::NoDevice => 100,
        GpuError::LaunchFailed(_) => 8,
        GpuError::UnsupportedKernel(_) => 8,
        GpuError::DeviceOutOfRange { .. } => 1,
    }
}

impl GpuError {
    /// The CUDA runtime error code (`cudaError_t`) that this failure maps to.
    pub fn to_cuda_code(&self) -> (r: i32)
        ensures
            r == spec_cuda_code(*self),
    {
        match self {
            GpuError::OutOfMemory(_) => 2,
            GpuError::InvalidPtr(_) => 1,
            GpuError::NoDevice => 100,
            GpuError::LaunchFailed(_) => 8,
            GpuError::UnsupportedKernel(_) => 8,
            GpuError::DeviceOutOfRange { .. } => 1,
        }
    }
}

/// Every failure of the library.
#[derive(Debug, Clone, PartialEq, Eq)]
pub enum Error {
    /// A failure with a CUDA error code.
    Gpu(GpuError),
    /// A SPIR-V module was refused; the text says why.
    InvalidSpirv(&'static str),
    /// A DXIL container was refused; the text says why.
    InvalidDxil(&'static str),
    /// An OmniIR byte string was refused; the text says why.
    InvalidIr(&'static str),
    /// An OmniIR module of another name than the ones this version knows.
    UnsupportedIrModule(String),
    /// A kernel's arguments break its argument contract; the text says how.
    Argument(&'static str),
    /// A simulator was asked to run a kernel it does not simulate; `simulator`
    /// says which simulator and what it runs.
    UnsimulatedKernel { simulator: &'static str, kernel: String },
    /// Only the `vector_add_f32` module can be turned into the SPIR-V fixture.
    FixtureUnsupported(String),
    /// A partition over an empty device list.
    NoDevicesToPartition,
    /// A feature that this version does not implement; the text says which.
    NotImplemented(&'static str),
    /// A SPIR-V byte string whose length is not a multiple of four.
    SpirvLength(usize),
    /// No memory type offers the wanted property flags.
    NoMemoryType(u32),
    /// A buffer holds fewer bytes than an argument contract needs.
    BufferTooSmall { what: &'static str, need: usize, have: usize },
    /// A size does not fit in a 32-bit push constant.
    TooLargeForU32(&'static str),
    /// The buffers of a launch hold fewer bytes than its contract needs.
    BuffersTooSmall { what: &'static str, need: usize },
    /// A kernel name that the real Vulkan backend has no dispatch path for.
    KernelNotImplemented(String),
    /// Only the canonical `vector_add_f32` module lowers to a native kernel.
    NotLowerable,
    /// Bytes that are not UTF-8; the text is what the UTF-8 check reported.
    Utf8(String),
    /// Speculative decoding was called against its contract; the text says how.
    Speculative(&'static str),
    /// The target and draft models of speculative decoding have different
    /// vocabularies.
    VocabMismatch { target: usize, draft: usize },
    /// A token id past the end of the vocabulary.
    TokenOutOfRange { token: u32, vocab: usize },
    /// A GEMM operand of the wrong length: `operand` is the slice, `dims` the
    /// product it must equal.
    GemmLength { operand: &'static str, dims: &'static str, len: usize, expected: usize },
    /// Offload measurement on a device that does not run DXIL kernels.
    DxilNotSupported(String),
    /// A flash-attention operand of the wrong length.
    AttentionLength { operand: &'static str, len: usize, expected: usize },
    /// A GEMM path whose kernels do not exist yet.
    GemmBackendMissing(GemmPath),
    /// A compressed key/value rank outside `0 < d_c < head_dim`; `context`
    /// names the call.
    MlaRank { context: &'static str, d_c: usize, head_dim: usize },
    /// A DeepSeek model configuration that the loader does not accept.
    DeepseekConfig(ConfigFault),
}

/// The text of each failure.
pub open spec fn gpu_error_text(e: GpuError) -> Seq<char> {
    match e {
        GpuError::OutOfMemory(n) => "out of memory: requested "@ + decimal(n as nat) + " bytes"@,
        GpuError::InvalidPtr(p) => "invalid device pointer: DevicePtr { addr: "@ + decimal(
            p.addr as nat,
        ) + ", device_id: "@ + decimal(p.device_id as nat) + " }"@,
        GpuError::NoDevice => "no device found"@,
        GpuError::LaunchFailed(s) => "kernel launch failed: "@ + s@,
        GpuError::UnsupportedKernel(k) => "kernel source not supported by this backend: "@ + k@,
        GpuError::DeviceOutOfRange { requested, available } => "device id "@ + decimal(
            requested as nat,
        ) + " out of range (have "@ + decimal(available as nat) + " devices)"@,
    }
}

impl GpuError {
    /// The failure as a sentence.
    pub fn message(&self) -> (r: String)
        ensures
            r@ == gpu_error_text(*self),
    {
        let mut s = String::new();
        match self {
            GpuError::OutOfMemory(n) => {
                s.append("out of memory: requested ");
                append_decimal(&mut s, *n as u64);
                s.append(" bytes");
            },
            GpuError::InvalidPtr(p) => {
                s.append("invalid device pointer: DevicePtr { addr: ");
                append_decimal(&mut s, p.addr);
                s.append(", device_id: ");
                append_decimal(&mut s, p.device_id as u64);
                s.append(" }");
            },
            GpuError::NoDevice => {
                s.append("no device found");
            },
            GpuError::LaunchFailed(m) => {
                s.append("kernel launch failed: ");
                s.append(m.as_str());
            },
            GpuError::UnsupportedKernel(k) => {
                s.append("kernel source not supported by this backend: ");
                s.append(k);
            },
            GpuError::DeviceOutOfRange { requested, available } => {
                s.append("device id ");
                append_decimal(&mut s, *requested as u64);
                s.append(" out of range (have ");
                append_decimal(&mut s, *available as u64);
                s.append(" devices)");
            },
        }
        assert(s@ =~= gpu_error_text(*self));
        s
    }
}

/// The text of each failure of the library.
pub open spec fn error_text(e: Error) -> Seq<char> {
    match e {
        Error::Gpu(g) => gpu_error_text(g),
        Error::InvalidSpirv(why) => "invalid SPIR-V: "@ + why@,
        Error::InvalidDxil(why) => "invalid DXIL: "@ + why@,
        Error::InvalidIr(why) => "invalid OmniIR: "@ + why@,
        Error::UnsupportedIrModule(n) => "unsupported OmniIR module `"@ + n@ + "` in v0.2"@,
        Error::Argument(why) => why@,
        Error::UnsimulatedKernel { simulator, kernel } => simulator@ + "; got kernel `"@ + kernel@
            + "`"@,
        Error::FixtureUnsupported(_) => "opencuda-vulkan v0.3.5 only compiles vector_add_f32 OmniIR fixture"@,
        Error::NoDevicesToPartition => "no devices to partition across"@,
        Error::NotImplemented(what) => what@,
        Error::SpirvLength(_) => "SPIR-V length must be multiple of 4"@,
        Error::NoMemoryType(flags) => "no compatible Vulkan memory type for flags 0x"@ + hex_padded(
            flags as nat,
            0,
        ),
        Error::BufferTooSmall { what, need, have } => what@ + " too small: need "@ + decimal(
            need as nat,
        ) + " bytes, have "@ + decimal(have as nat),
        Error::TooLargeForU32(what) => what@ + " does not fit in u32 push constant"@,
        Error::BuffersTooSmall { what, need } => what@ + " too small: need "@ + decimal(need as nat)
            + " bytes"@,
        Error::NotLowerable => "opencuda-ir v0.2 only lowers canonical vector_add_f32"@,
        Error::Utf8(m) => m@,
        Error::Speculative(why) => "open-cuda-llm: generate_speculative: "@ + why@,
        Error::VocabMismatch { target, draft } => "open-cuda-llm: generate_speculative: target vocab_size="@
            + decimal(target as nat) + " != draft vocab_size="@ + decimal(draft as nat),
        Error::TokenOutOfRange { token, vocab } => "open-cuda-llm: token id "@ + decimal(token as nat)
            + " out of vocab range "@ + decimal(vocab as nat),
        Error::GemmLength { operand, dims, len, expected } => "sgemm: "@ + operand@ + ".len()="@
            + decimal(len as nat) + " != "@ + dims@ + "="@ + decimal(expected as nat),
        Error::DxilNotSupported(name) => "decide_dxil_offload: device '"@ + name@
            + "' does not support DXIL kernels"@,
        Error::AttentionLength { operand, len, expected } => "flash_attention: "@ + operand@
            + ".len()="@ + decimal(len as nat) + " != seq_len*head_dim="@ + decimal(expected as nat),
        Error::GemmBackendMissing(p) => "sgemm: "@ + spec_gemm_path_name(p)
            + " backend not yet implemented (Phase 3)"@,
        Error::MlaRank { context, d_c, head_dim } => "open-cuda-llm: "@ + context@ + ": d_c="@
            + decimal(d_c as nat) + " must satisfy 0 < d_c < head_dim="@ + decimal(head_dim as nat),
        Error::DeepseekConfig(f) => config_fault_text(f),
        Error::KernelNotImplemented(k) => "VulkanDevice v0.4.1 only implements vector_add/vector_add_f32, matmul/matmul_f32, and raid6_xor_parity; got `"@
            + k@ + "`"@,
    }
}

impl Error {
    /// The failure as a sentence.
    pub fn message(&self) -> (r: String)
        ensures
            r@ == error_text(*self),
    {
        let mut s = String::new();
        match self {
            Error::Gpu(g) => {
                return g.message();
            },
            Error::InvalidSpirv(why) => {
                s.append("invalid SPIR-V: ");
                s.append(why);
            },
            Error::InvalidDxil(why) => {
                s.append("invalid DXIL: ");
                s.append(why);
            },
            Error::InvalidIr(why) => {
                s.append("invalid OmniIR: ");
                s.append(why);
            },
            Error::UnsupportedIrModule(n) => {
                s.append("unsupported OmniIR module `");
                s.append(n.as_str());
                s.append("` in v0.2");
            },
            Error::Argument(why) => {
                s.append(why);
            },
            Error::UnsimulatedKernel { simulator, kernel } => {
                s.append(simulator);
                s.append("; got kernel `");
                s.append(kernel.as_str());
                s.append("`");
            },
            Error::FixtureUnsupported(_) => {
                s.append("opencuda-vulkan v0.3.5 only compiles vector_add_f32 OmniIR fixture");
            },
            Error::NoDevicesToPartition => {
                s.append("no devices to partition across");
            },
            Error::NotImplemented(what) => {
                s.append(what);
            },
            Error::SpirvLength(_) => {
                s.append("SPIR-V length must be multiple of 4");
            },
            Error::NoMemoryType(flags) => {
                s.append("no compatible Vulkan memory type for flags 0x");
                append_hex_padded(&mut s, *flags as u64, 0);
            },
            Error::BufferTooSmall { what, need, have } => {
                s.append(what);
                s.append(" too small: need ");
                append_decimal(&mut s, *need as u64);
                s.append(" bytes, have ");
                append_decimal(&mut s, *have as u64);
            },
            Error::TooLargeForU32(what) => {
                s.append(what);
                s.append(" does not fit in u32 push constant");
            },
            Error::BuffersTooSmall { what, need } => {
                s.append(what);
                s.append(" too small: need ");
                append_decimal(&mut s, *need as u64);
                s.append(" bytes");
            },
            Error::NotLowerable => {
                s.append("opencuda-ir v0.2 only lowers canonical vector_add_f32");
            },
            Error::Utf8(m) => {
                s.append(m.as_str());
            },
            Error::Speculative(why) => {
                s.append("open-cuda-llm: generate_speculative: ");
                s.append(why);
            },
            Error::VocabMismatch { target, draft } => {
                s.append("open-cuda-llm: generate_speculative: target vocab_size=");
                append_decimal(&mut s, *target as u64);
                s.append(" != draft vocab_size=");
                append_decimal(&mut s, *draft as u64);
            },
            Error::TokenOutOfRange { token, vocab } => {
                s.append("open-cuda-llm: token id ");
                append_decimal(&mut s, *token as u64);
                s.append(" out of vocab range ");
                append_decimal(&mut s, *vocab as u64);
            },
            Error::GemmLength { operand, dims, len, expected } => {
                s.append("sgemm: ");
                s.append(operand);
                s.append(".len()=");
                append_decimal(&mut s, *len as u64);
                s.append(" != ");
                s.append(dims);
                s.append("=");
                append_decimal(&mut s, *expected as u64);
            },
            Error::DxilNotSupported(name) => {
                s.append("decide_dxil_offload: device '");
                s.append(name.as_str());
                s.append("' does not support DXIL kernels");
            },
            Error::AttentionLength { operand, len, expected } => {
                s.append("flash_attention: ");
                s.append(operand);
                s.append(".len()=");
                append_decimal(&mut s, *len as u64);
                s.append(" != seq_len*head_dim=");
                append_decimal(&mut s, *expected as u64);
            },
            Error::GemmBackendMissing(p) => {
                s.append("sgemm: ");
                s.append(gemm_path_name(*p));
                s.append(" backend not yet implemented (Phase 3)");
            },
            Error::MlaRank { context, d_c, head_dim } => {
                s.append("open-cuda-llm: ");
                s.append(context);
                s.append(": d_c=");
                append_decimal(&mut s, *d_c as u64);
                s.append(" must satisfy 0 < d_c < head_dim=");
                append_decimal(&mut s, *head_dim as u64);
            },
            Error::DeepseekConfig(f) => {
                write_config_fault(&mut s, f);
            },
            Error::KernelNotImplemented(k) => {
                s.append(
                    "VulkanDevice v0.4.1 only implements vector_add/vector_add_f32, matmul/matmul_f32, and raid6_xor_parity; got `",
                );
                s.append(k.as_str());
                s.append("`");
            },
        }
        assert(s@ =~= error_text(*self));
        s
    }
}

} // verus!
