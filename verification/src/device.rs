//! The device contract that every backend implements, and the launch
//! configuration of a kernel.

use vstd::prelude::*;
use crate::error::Error;
use crate::kernel::{CompiledKernel, KernelArg};
use crate::memory::{DevicePtr, spec_alloc, spec_free, spec_h2d, spec_d2h, spec_d2d};

verus! {

/// The vendor of a GPU (or the CPU backend).
#[derive(Debug, PartialEq, Eq)]
pub enum GpuVendor {
    Nvidia { compute_capability: (u32, u32) },
    Amd { gfx_version: String },
    Intel { architecture: String },
    /// Qualcomm Adreno (PCI/Vulkan vendor id 0x5143).
    Qualcomm { architecture: String },
    /// ARM Mali (PCI/Vulkan vendor id 0x13B5).
    Arm { architecture: String },
    /// Imagination Technologies PowerVR (PCI/Vulkan vendor id 0x1010).
    ImaginationPowerVr { architecture: String },
    /// The CPU backend.
    Cpu,
    Unknown,
}

impl Clone for GpuVendor {
    fn clone(&self) -> (r: Self)
        ensures
            r == *self,
    {
        match self {
            GpuVendor::Nvidia { compute_capability } => GpuVendor::Nvidia {
                compute_capability: *compute_capability,
            },
            GpuVendor::Amd { gfx_version } => GpuVendor::Amd { gfx_version: gfx_version.clone() },
            GpuVendor::Intel { architecture } => GpuVendor::Intel {
                architecture: architecture.clone(),
            },
            GpuVendor::Qualcomm { architecture } => GpuVendor::Qualcomm {
                architecture: architecture.clone(),
            },
            GpuVendor::Arm { architecture } => GpuVendor::Arm { architecture: architecture.clone() },
            GpuVendor::ImaginationPowerVr { architecture } => GpuVendor::ImaginationPowerVr {
                architecture: architecture.clone(),
            },
            GpuVendor::Cpu => GpuVendor::Cpu,
            GpuVendor::Unknown => GpuVendor::Unknown,
        }
    }
}

/// What a device reports about itself.
#[derive(Clone, Debug)]
pub struct DeviceInfo {
    pub id: usize,
    pub vendor: GpuVendor,
    pub name: String,
    pub total_memory: u64,
    pub compute_units: u32,
}

/// A kernel launch configuration: `<<<grid, block, shared_mem>>>`.
#[derive(Clone, Copy, Debug)]
pub struct LaunchConfig {
    pub grid: (u32, u32, u32),
    pub block: (u32, u32, u32),
    pub shared_mem: u32,
}

/// `x` with 0 replaced by 1 (a block of zero threads is treated as one thread
/// wide when the number of blocks is worked out).
pub open spec fn at_least_one(x: u32) -> int {
    if x == 0 {
        1
    } else {
        x as int
    }
}

/// The number of blocks of `b` threads needed to cover `n` threads.
pub open spec fn blocks_for(n: u32, b: u32) -> int {
    (n as int + at_least_one(b) - 1) / at_least_one(b)
}

/// The number of threads a configuration launches.
pub open spec fn spec_total_threads(cfg: LaunchConfig) -> int {
    (cfg.grid.0 as int * cfg.grid.1 as int * cfg.grid.2 as int) * (cfg.block.0 as int
        * cfg.block.1 as int * cfg.block.2 as int)
}

fn ceil_div_u32(n: u32, b: u32) -> (r: u32)
    ensures
        r == blocks_for(n, b),
{
    let d = if b == 0 {
        1
    } else {
        b
    };
    let q = n / d;
    proof {
        if n % d != 0 {
            assert(q < u32::MAX) by (nonlinear_arith)
                requires
                    d >= 1,
                    n % d != 0,
                    q == n / d,
                    n <= u32::MAX,
            {
                if d == 1 {
                    assert(n % d == 0);
                }
            }
        }
    }
    let r = if n % d != 0 {
        q + 1
    } else {
        q
    };
    assert(r == (n as int + d - 1) / d as int) by (nonlinear_arith)
        requires
            d >= 1,
            q == n as int / d as int,
            r == (if n as int % d as int != 0 {
                q + 1
            } else {
                q as int
            }),
    ;
    r
}

/// Enough blocks, and no block more than needed: `blocks * b` covers `n`, and
/// one block fewer would not.
pub proof fn law_blocks_cover(n: u32, b: u32)
    ensures
        blocks_for(n, b) * at_least_one(b) >= n,
        (blocks_for(n, b) - 1) * at_least_one(b) < n || n == 0,
        blocks_for(n, b) >= 0,
{
    let d = at_least_one(b);
    let k = blocks_for(n, b);
    assert(k * d >= n && ((k - 1) * d < n || n == 0) && k >= 0) by (nonlinear_arith)
        requires
            d >= 1,
            n >= 0,
            k == (n + d - 1) / d,
    ;
}

/// The product of two `u32` values fits in a `u64`.
pub proof fn lemma_u32_product(a: u32, b: u32)
    ensures
        a as int * b as int <= u64::MAX,
{
    assert(a as int * b as int <= u64::MAX) by (nonlinear_arith)
        requires
            a <= u32::MAX,
            b <= u32::MAX,
    ;
}

impl LaunchConfig {
    /// A one-dimensional launch of `total_threads` threads in blocks of
    /// `block_size` threads.
    pub fn linear(total_threads: u32, block_size: u32) -> (r: Self)
        ensures
            r.grid.0 == blocks_for(total_threads, block_size),
            r.grid.1 == 1,
            r.grid.2 == 1,
            r.block == (block_size, 1u32, 1u32),
            r.shared_mem == 0,
    {
        let blocks = ceil_div_u32(total_threads, block_size);
        LaunchConfig { grid: (blocks, 1, 1), block: (block_size, 1, 1), shared_mem: 0 }
    }

    /// A two-dimensional launch covering `rows` x `cols` outputs with blocks of
    /// `block_x` x `block_y` threads.
    pub fn grid2d(rows: u32, cols: u32, block_x: u32, block_y: u32) -> (r: Self)
        ensures
            r.grid.0 == blocks_for(cols, block_x),
            r.grid.1 == blocks_for(rows, block_y),
            r.grid.2 == 1,
            r.block == (block_x, block_y, 1u32),
            r.shared_mem == 0,
    {
        let groups_x = ceil_div_u32(cols, block_x);
        let groups_y = ceil_div_u32(rows, block_y);
        LaunchConfig { grid: (groups_x, groups_y, 1), block: (block_x, block_y, 1), shared_mem: 0 }
    }

    /// The number of threads this configuration launches.
    pub fn total_threads(&self) -> (r: u64)
        requires
            self.grid.0 as int * self.grid.1 as int * self.grid.2 as int <= u64::MAX,
            self.block.0 as int * self.block.1 as int * self.block.2 as int <= u64::MAX,
            spec_total_threads(*self) <= u64::MAX,
        ensures
            r == spec_total_threads(*self),
    {
        proof {
            lemma_u32_product(self.grid.0, self.grid.1);
            lemma_u32_product(self.block.0, self.block.1);
        }
        let g01 = self.grid.0 as u64 * self.grid.1 as u64;
        let b01 = self.block.0 as u64 * self.block.1 as u64;
        assert(g01 as int * self.grid.2 as int <= u64::MAX);
        assert(b01 as int * self.block.2 as int <= u64::MAX);
        let g = g01 * self.grid.2 as u64;
        let b = b01 * self.block.2 as u64;
        g * b
    }
}

/// The contract of every backend: device information, memory management with
/// the semantics of the CUDA runtime, kernel launch and synchronisation.
///
/// A backend whose memory behaves as the allocation model of `crate::memory`
/// says reports so through `models_memory`; for such a backend every memory
/// operation is exactly the one the model describes.
pub trait GpuDevice {
    /// What `info` returns.
    closed spec fn spec_info(&self) -> DeviceInfo {
        vstd::pervasive::arbitrary()
    }

    /// Handle to bytes for every live allocation.
    closed spec fn memory(&self) -> Map<u64, Seq<u8>> {
        vstd::pervasive::arbitrary()
    }

    /// The handle the next allocation gets.
    closed spec fn next_handle(&self) -> nat {
        vstd::pervasive::arbitrary()
    }

    /// Whether the memory operations follow the allocation model.
    open spec fn models_memory(&self) -> bool {
        false
    }

    /// What `supports_spirv` returns.
    closed spec fn spec_supports_spirv(&self) -> bool {
        vstd::pervasive::arbitrary()
    }

    /// What `supports_dxil` returns.
    closed spec fn spec_supports_dxil(&self) -> bool {
        vstd::pervasive::arbitrary()
    }

    fn info(&self) -> (r: &DeviceInfo)
        ensures
            *r == self.spec_info(),
    ;

    /// Allocate `bytes` bytes of device memory.
    fn allocate(&mut self, bytes: usize) -> (r: Result<DevicePtr, Error>)
        ensures
            final(self).spec_info() == old(self).spec_info(),
            final(self).models_memory() == old(self).models_memory(),
            old(self).models_memory() ==> (final(self).memory(), final(self).next_handle(), r)
                == spec_alloc(
                old(self).spec_info().id,
                old(self).memory(),
                old(self).next_handle(),
                bytes,
            ),
    ;

    /// Release an allocation.
    fn free(&mut self, ptr: DevicePtr) -> (r: Result<(), Error>)
        ensures
            final(self).spec_info() == old(self).spec_info(),
            final(self).models_memory() == old(self).models_memory(),
            old(self).models_memory() ==> final(self).next_handle() == old(self).next_handle()
                && (final(self).memory(), r) == spec_free(
                old(self).spec_info().id,
                old(self).memory(),
                ptr,
            ),
    ;

    /// Copy host bytes to the start of a device allocation.
    fn memcpy_h2d(&mut self, dst: DevicePtr, src: &[u8]) -> (r: Result<(), Error>)
        ensures
            final(self).spec_info() == old(self).spec_info(),
            final(self).models_memory() == old(self).models_memory(),
            old(self).models_memory() ==> final(self).next_handle() == old(self).next_handle()
                && (final(self).memory(), r) == spec_h2d(
                old(self).spec_info().id,
                old(self).memory(),
                dst,
                src@,
            ),
    ;

    /// Copy the start of a device allocation to host memory.
    fn memcpy_d2h(&self, dst: &mut [u8], src: DevicePtr) -> (r: Result<(), Error>)
        ensures
            final(dst)@.len() == old(dst)@.len(),
            self.models_memory() ==> match spec_d2h(
                self.spec_info().id,
                self.memory(),
                old(dst)@.len(),
                src,
            ) {
                Ok(bytes) => r is Ok && final(dst)@ == bytes,
                Err(e) => r == Err::<(), Error>(e) && final(dst)@ == old(dst)@,
            },
    ;

    /// Copy `bytes` bytes between two allocations of this device.
    fn memcpy_d2d(&mut self, dst: DevicePtr, src: DevicePtr, bytes: usize) -> (r: Result<
        (),
        Error,
    >)
        ensures
            final(self).spec_info() == old(self).spec_info(),
            final(self).models_memory() == old(self).models_memory(),
            old(self).models_memory() ==> final(self).next_handle() == old(self).next_handle()
                && (final(self).memory(), r) == spec_d2d(
                old(self).spec_info().id,
                old(self).memory(),
                dst,
                src,
                bytes,
            ),
    ;

    /// Launch a kernel.
    fn launch_kernel(&mut self, kernel: &CompiledKernel, cfg: &LaunchConfig, args: &[KernelArg]) -> (r:
        Result<(), Error>)
        ensures
            final(self).spec_info() == old(self).spec_info(),
            final(self).models_memory() == old(self).models_memory(),
    ;

    /// Wait until all launched work is done.
    fn synchronize(&self) -> (r: Result<(), Error>);

    /// Whether `launch_kernel` runs SPIR-V (Vulkan compute) kernels.
    fn supports_spirv(&self) -> (r: bool)
        ensures
            r == self.spec_supports_spirv(),
    ;

    /// Whether `launch_kernel` runs DXIL (DirectX 12 compute) kernels.
    fn supports_dxil(&self) -> (r: bool)
        ensures
            r == self.spec_supports_dxil(),
    ;

    /// Whether the device runs native FP8 matrix operations.
    fn supports_fp8_tensor_core(&self) -> (r: bool)
        default_ensures
            r == false,
    {
        false
    }

    /// Whether the device runs native `double` in compute shaders.
    fn supports_f64_shader(&self) -> (r: bool)
        default_ensures
            r == false,
    {
        false
    }
}

} // verus!

