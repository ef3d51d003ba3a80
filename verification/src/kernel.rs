//! Kernels: their source forms, their arguments, and the position of one thread
//! in a launch.

use vstd::prelude::*;
use crate::device::LaunchConfig;
use crate::memory::DevicePtr;

verus! {

/// The form in which a kernel is supplied; each backend accepts only some.
#[derive(Clone, Debug, PartialEq, Eq)]
pub enum KernelSource {
    /// A host function; its body is registered with the CPU backend under the
    /// kernel's name.
    Native,
    /// Precompiled SPIR-V (Vulkan compute).
    SpirV(Vec<u8>),
    /// PTX from the CUDA compatibility layer.
    Ptx(String),
    /// The common intermediate representation (see `crate::ir`).
    OmniIr(Vec<u8>),
    /// Precompiled DXIL in a DXBC container (DirectX 12 compute).
    Dxil(Vec<u8>),
}

/// The name of a source kind.
pub open spec fn spec_kind(s: KernelSource) -> &'static str {
    match s {
        KernelSource::Native => "Native",
        KernelSource::SpirV(_) => "SpirV",
        KernelSource::Ptx(_) => "Ptx",
        KernelSource::OmniIr(_) => "OmniIr",
        KernelSource::Dxil(_) => "Dxil",
    }
}

impl KernelSource {
    pub fn kind(&self) -> (r: &'static str)
        ensures
            r == spec_kind(*self),
    {
        match self {
            KernelSource::Native => "Native",
            KernelSource::SpirV(_) => "SpirV",
            KernelSource::Ptx(_) => "Ptx",
            KernelSource::OmniIr(_) => "OmniIr",
            KernelSource::Dxil(_) => "Dxil",
        }
    }
}

/// An argument of a kernel launch. A 32-bit float is carried by its IEEE-754
/// bit pattern.
#[derive(Clone, Copy, Debug, PartialEq, Eq, Structural)]
pub enum KernelArg {
    Ptr(DevicePtr),
    U32(u32),
    I32(i32),
    F32(u32),
    Usize(usize),
}

impl KernelArg {
    pub fn as_ptr(&self) -> (r: Option<DevicePtr>)
        ensures
            r == (match *self {
                KernelArg::Ptr(p) => Some(p),
                _ => None,
            }),
    {
        match self {
            KernelArg::Ptr(p) => Some(*p),
            _ => None,
        }
    }

    pub fn as_u32(&self) -> (r: Option<u32>)
        ensures
            r == (match *self {
                KernelArg::U32(v) => Some(v),
                _ => None,
            }),
    {
        match self {
            KernelArg::U32(v) => Some(*v),
            _ => None,
        }
    }

    /// A `usize` argument, or a `u32` one widened.
    pub fn as_usize(&self) -> (r: Option<usize>)
        ensures
            r == (match *self {
                KernelArg::Usize(v) => Some(v),
                KernelArg::U32(v) => Some(v as usize),
                _ => None,
            }),
    {
        match self {
            KernelArg::Usize(v) => Some(*v),
            KernelArg::U32(v) => Some(*v as usize),
            _ => None,
        }
    }

    /// The bit pattern of a 32-bit float argument.
    pub fn as_f32(&self) -> (r: Option<u32>)
        ensures
            r == (match *self {
                KernelArg::F32(v) => Some(v),
                _ => None,
            }),
    {
        match self {
            KernelArg::F32(v) => Some(*v),
            _ => None,
        }
    }
}

/// The position of one thread in a launch (CUDA's blockIdx, threadIdx,
/// blockDim, gridDim).
#[derive(Clone, Copy, Debug, PartialEq, Eq)]
pub struct ThreadCtx {
    pub block_idx: (u32, u32, u32),
    pub thread_idx: (u32, u32, u32),
    pub block_dim: (u32, u32, u32),
    pub grid_dim: (u32, u32, u32),
}

impl ThreadCtx {
    /// `blockIdx.x * blockDim.x + threadIdx.x`.
    pub fn global_id_x(&self) -> (r: u32)
        requires
            self.block_idx.0 * self.block_dim.0 + self.thread_idx.0 <= u32::MAX,
        ensures
            r == self.block_idx.0 * self.block_dim.0 + self.thread_idx.0,
    {
        self.block_idx.0 * self.block_dim.0 + self.thread_idx.0
    }

    /// `blockIdx.y * blockDim.y + threadIdx.y`.
    pub fn global_id_y(&self) -> (r: u32)
        requires
            self.block_idx.1 * self.block_dim.1 + self.thread_idx.1 <= u32::MAX,
        ensures
            r == self.block_idx.1 * self.block_dim.1 + self.thread_idx.1,
    {
        self.block_idx.1 * self.block_dim.1 + self.thread_idx.1
    }
}

/// Split a linear index over an `x` by `y` by `z` box into its coordinates,
/// x fastest.
pub open spec fn unflatten(i: int, x: int, y: int) -> (int, int, int) {
    (i % x, (i % (x * y)) / x, i / (x * y))
}

proof fn lemma_unflatten(i: int, x: int, y: int, z: int)
    requires
        x >= 1,
        y >= 1,
        0 <= i < x * y * z,
    ensures
        0 <= unflatten(i, x, y).0 < x,
        0 <= unflatten(i, x, y).1 < y,
        0 <= unflatten(i, x, y).2 < z,
        unflatten(i, x, y).0 + x * (unflatten(i, x, y).1 + y * unflatten(i, x, y).2) == i,
{
    let (a, b, c) = unflatten(i, x, y);
    assert(0 <= a < x && 0 <= b < y && 0 <= c < z && a + x * (b + y * c) == i) by (nonlinear_arith)
        requires
            x >= 1,
            y >= 1,
            0 <= i < x * y * z,
            a == i % x,
            b == (i % (x * y)) / x,
            c == i / (x * y),
    {
        assert(x * y >= 1);
        assert(i % (x * y) == i % x + x * ((i % (x * y)) / x)) by {
            vstd::arithmetic::div_mod::lemma_fundamental_div_mod(i % (x * y), x);
            vstd::arithmetic::div_mod::lemma_mod_mod(i, x, y);
        }
        vstd::arithmetic::div_mod::lemma_fundamental_div_mod(i, x * y);
        vstd::arithmetic::div_mod::lemma_div_pos_is_pos(i, x * y);
        vstd::arithmetic::div_mod::lemma_div_by_multiple_is_strongly_ordered(i, x * y * z, z, x * y);
    }
}

/// The thread with linear block index `block` and linear thread index `thread`
/// of a launch, as the CPU backend enumerates them (x fastest).
pub open spec fn spec_thread_ctx(cfg: LaunchConfig, block: int, thread: int) -> ThreadCtx {
    let (bx, by, bz) = unflatten(block, cfg.grid.0 as int, cfg.grid.1 as int);
    let (tx, ty, tz) = unflatten(thread, cfg.block.0 as int, cfg.block.1 as int);
    ThreadCtx {
        block_idx: (bx as u32, by as u32, bz as u32),
        thread_idx: (tx as u32, ty as u32, tz as u32),
        block_dim: cfg.block,
        grid_dim: cfg.grid,
    }
}

/// The context of one thread of a launch, from its linear block and thread
/// indices.
pub fn thread_ctx_at(cfg: &LaunchConfig, block: u64, thread: u64) -> (r: ThreadCtx)
    requires
        block < cfg.grid.0 as int * cfg.grid.1 as int * cfg.grid.2 as int,
        thread < cfg.block.0 as int * cfg.block.1 as int * cfg.block.2 as int,
    ensures
        r == spec_thread_ctx(*cfg, block as int, thread as int),
        r.block_idx.0 < cfg.grid.0 && r.block_idx.1 < cfg.grid.1 && r.block_idx.2 < cfg.grid.2,
        r.thread_idx.0 < cfg.block.0 && r.thread_idx.1 < cfg.block.1 && r.thread_idx.2
            < cfg.block.2,
        r.block_idx.0 + cfg.grid.0 * (r.block_idx.1 + cfg.grid.1 * r.block_idx.2) == block,
        r.thread_idx.0 + cfg.block.0 * (r.thread_idx.1 + cfg.block.1 * r.thread_idx.2) == thread,
{
    let (gx, gy, gz) = cfg.grid;
    let (bx, by, bz) = cfg.block;
    proof {
        if gx == 0 || gy == 0 {
            assert(gx as int * gy as int * gz as int == 0) by (nonlinear_arith)
                requires gx == 0 || gy == 0;
        }
        if bx == 0 || by == 0 {
            assert(bx as int * by as int * bz as int == 0) by (nonlinear_arith)
                requires bx == 0 || by == 0;
        }
        crate::device::lemma_u32_product(gx, gy);
        crate::device::lemma_u32_product(bx, by);
        lemma_unflatten(block as int, gx as int, gy as int, gz as int);
        lemma_unflatten(thread as int, bx as int, by as int, bz as int);
    }
    let plane = gx as u64 * gy as u64;
    let biz = (block / plane) as u32;
    let rem = block % plane;
    let biy = (rem / gx as u64) as u32;
    let bix = (rem % gx as u64) as u32;
    let tplane = bx as u64 * by as u64;
    let tiz = (thread / tplane) as u32;
    let trem = thread % tplane;
    let tiy = (trem / bx as u64) as u32;
    let tix = (trem % bx as u64) as u32;
    proof {
        vstd::arithmetic::div_mod::lemma_mod_mod(block as int, gx as int, gy as int);
        vstd::arithmetic::div_mod::lemma_mod_mod(thread as int, bx as int, by as int);
    }
    ThreadCtx {
        block_idx: (bix, biy, biz),
        thread_idx: (tix, tiy, tiz),
        block_dim: cfg.block,
        grid_dim: cfg.grid,
    }
}

/// A kernel ready to launch.
#[derive(Clone, Debug)]
pub struct CompiledKernel {
    pub name: String,
    pub source: KernelSource,
    pub entry: String,
}

impl CompiledKernel {
    /// A native (host function) kernel; its entry point is its name.
    pub fn native(name: String) -> (r: Self)
        ensures
            r.name@ == name@,
            r.entry@ == name@,
            r.source == KernelSource::Native,
    {
        let entry = name.clone();
        CompiledKernel { entry, name, source: KernelSource::Native }
    }

    /// A precompiled SPIR-V kernel.
    pub fn spirv(name: String, entry: String, bytes: Vec<u8>) -> (r: Self)
        ensures
            r.name == name,
            r.entry == entry,
            r.source == KernelSource::SpirV(bytes),
    {
        CompiledKernel { name, entry, source: KernelSource::SpirV(bytes) }
    }

    /// An OmniIR kernel (see `crate::ir`).
    pub fn omniir(name: String, entry: String, bytes: Vec<u8>) -> (r: Self)
        ensures
            r.name == name,
            r.entry == entry,
            r.source == KernelSource::OmniIr(bytes),
    {
        CompiledKernel { name, entry, source: KernelSource::OmniIr(bytes) }
    }

    /// A precompiled DXIL kernel.
    pub fn dxil(name: String, entry: String, bytes: Vec<u8>) -> (r: Self)
        ensures
            r.name == name,
            r.entry == entry,
            r.source == KernelSource::Dxil(bytes),
    {
        CompiledKernel { name, entry, source: KernelSource::Dxil(bytes) }
    }

    pub fn source_kind(&self) -> (r: &'static str)
        ensures
            r == spec_kind(self.source),
    {
        self.source.kind()
    }
}

} // verus!
