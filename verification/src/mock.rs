//! A test backend that computes nothing: it keeps real allocations and records
//! which kernel was launched with which configuration and how many arguments,
//! so that the call path of a program can be checked without a GPU.

use vstd::prelude::*;
use crate::device::{DeviceInfo, GpuDevice, GpuVendor, LaunchConfig};
use crate::error::{Error, GpuError};
use crate::kernel::{spec_kind, CompiledKernel, KernelArg};
use crate::memory::{
    is_live, spec_alloc, spec_d2d, spec_d2h, spec_free, spec_h2d, AllocTable, DevicePtr,
};

verus! {

/// One recorded kernel launch.
#[derive(Debug)]
pub struct LaunchRecord {
    pub kernel_name: String,
    pub source_kind: &'static str,
    pub entry: String,
    pub grid: (u32, u32, u32),
    pub block: (u32, u32, u32),
    pub arg_count: usize,
}

impl Clone for LaunchRecord {
    fn clone(&self) -> (r: Self)
        ensures
            r == *self,
    {
        LaunchRecord {
            kernel_name: self.kernel_name.clone(),
            source_kind: self.source_kind,
            entry: self.entry.clone(),
            grid: self.grid,
            block: self.block,
            arg_count: self.arg_count,
        }
    }
}

/// The first pointer argument, from the front, that does not name a live
/// allocation of device `id`.
pub open spec fn first_dead_ptr(id: usize, mem: Map<u64, Seq<u8>>, args: Seq<KernelArg>) -> Option<
    DevicePtr,
>
    decreases args.len(),
{
    if args.len() == 0 {
        None
    } else {
        match args[0] {
            KernelArg::Ptr(p) => if !is_live(id, mem, p) {
                Some(p)
            } else {
                first_dead_ptr(id, mem, args.drop_first())
            },
            _ => first_dead_ptr(id, mem, args.drop_first()),
        }
    }
}

/// Check that every pointer argument names a live allocation; the first one
/// that does not is the failure.
pub fn check_ptr_args(mem: &AllocTable, id: usize, args: &[KernelArg]) -> (r: Result<(), Error>)
    ensures
        match first_dead_ptr(id, mem.memory(), args@) {
            Some(p) => r == Err::<(), Error>(Error::Gpu(GpuError::InvalidPtr(p))),
            None => r is Ok,
        },
{
    let mut i: usize = 0;
    assert(args@.skip(0) =~= args@);
    while i < args.len()
        invariant
            i <= args@.len(),
            first_dead_ptr(id, mem.memory(), args@) == first_dead_ptr(
                id,
                mem.memory(),
                args@.skip(i as int),
            ),
        decreases args@.len() - i,
    {
        assert(args@.skip(i as int).drop_first() =~= args@.skip(i + 1));
        assert(args@.skip(i as int)[0] == args@[i as int]);
        match args[i] {
            KernelArg::Ptr(p) => {
                if !mem.is_live_ptr(id, p) {
                    return Err(Error::Gpu(GpuError::InvalidPtr(p)));
                }
            },
            _ => {},
        }
        i = i + 1;
    }
    assert(args@.skip(i as int).len() == 0);
    Ok(())
}

/// The launch-recording test device.
pub struct MockDevice {
    info: DeviceInfo,
    allocations: AllocTable,
    launches: Vec<LaunchRecord>,
}

impl MockDevice {
    /// The launches recorded so far, oldest first.
    pub closed spec fn spec_launches(&self) -> Seq<LaunchRecord> {
        self.launches@
    }

    /// A fresh device with identifier `id`: no allocations, no launches.
    pub fn new(id: usize) -> (r: Self)
        ensures
            r.spec_info().id == id,
            r.spec_info().vendor == GpuVendor::Unknown,
            r.spec_info().name@ == "OpenCUDA Mock Device (no GPU, records launches)"@,
            r.spec_info().total_memory == 512 * 1024 * 1024,
            r.spec_info().compute_units == 1,
            r.memory() == Map::<u64, Seq<u8>>::empty(),
            r.next_handle() == 1,
            r.spec_launches() == Seq::<LaunchRecord>::empty(),
    {
        MockDevice {
            info: DeviceInfo {
                id,
                vendor: GpuVendor::Unknown,
                name: "OpenCUDA Mock Device (no GPU, records launches)".to_owned(),
                total_memory: 512 * 1024 * 1024,
                compute_units: 1,
            },
            allocations: AllocTable::new(),
            launches: Vec::new(),
        }
    }

    /// A copy of the recorded launches.
    pub fn launches(&self) -> (r: Vec<LaunchRecord>)
        ensures
            r@ == self.spec_launches(),
    {
        let mut out: Vec<LaunchRecord> = Vec::new();
        let mut i: usize = 0;
        while i < self.launches.len()
            invariant
                i <= self.launches@.len(),
                out@ == self.launches@.take(i as int),
            decreases self.launches@.len() - i,
        {
            out.push(self.launches[i].clone());
            i = i + 1;
            assert(out@ =~= self.launches@.take(i as int));
        }
        assert(self.launches@.take(i as int) =~= self.launches@);
        out
    }
}

impl GpuDevice for MockDevice {
    closed spec fn spec_info(&self) -> DeviceInfo {
        self.info
    }

    closed spec fn memory(&self) -> Map<u64, Seq<u8>> {
        self.allocations.memory()
    }

    closed spec fn next_handle(&self) -> nat {
        self.allocations.next_handle()
    }

    open spec fn models_memory(&self) -> bool {
        true
    }

    open spec fn spec_supports_spirv(&self) -> bool {
        false
    }

    open spec fn spec_supports_dxil(&self) -> bool {
        false
    }

    fn info(&self) -> (r: &DeviceInfo) {
        &self.info
    }

    fn allocate(&mut self, bytes: usize) -> (r: Result<DevicePtr, Error>)
        ensures
            final(self).spec_launches() == old(self).spec_launches(),
    {
        self.allocations.allocate(self.info.id, bytes)
    }

    fn free(&mut self, ptr: DevicePtr) -> (r: Result<(), Error>)
        ensures
            final(self).spec_launches() == old(self).spec_launches(),
    {
        self.allocations.free(self.info.id, ptr)
    }

    fn memcpy_h2d(&mut self, dst: DevicePtr, src: &[u8]) -> (r: Result<(), Error>)
        ensures
            final(self).spec_launches() == old(self).spec_launches(),
    {
        self.allocations.memcpy_h2d(self.info.id, dst, src)
    }

    fn memcpy_d2h(&self, dst: &mut [u8], src: DevicePtr) -> (r: Result<(), Error>) {
        self.allocations.memcpy_d2h(self.info.id, dst, src)
    }

    fn memcpy_d2d(&mut self, dst: DevicePtr, src: DevicePtr, bytes: usize) -> (r: Result<
        (),
        Error,
    >)
        ensures
            final(self).spec_launches() == old(self).spec_launches(),
    {
        self.allocations.memcpy_d2d(self.info.id, dst, src, bytes)
    }

    /// Record the launch, once every pointer argument is found live.
    fn launch_kernel(&mut self, kernel: &CompiledKernel, cfg: &LaunchConfig, args: &[KernelArg]) -> (r:
        Result<(), Error>)
        ensures
            final(self).memory() == old(self).memory(),
            final(self).next_handle() == old(self).next_handle(),
            match first_dead_ptr(old(self).spec_info().id, old(self).memory(), args@) {
                Some(p) => r == Err::<(), Error>(Error::Gpu(GpuError::InvalidPtr(p)))
                    && final(self).spec_launches() == old(self).spec_launches(),
                None => r is Ok && final(self).spec_launches().len() == old(
                    self,
                ).spec_launches().len() + 1 && final(self).spec_launches().drop_last() == old(
                    self,
                ).spec_launches() && ({
                    let rec = final(self).spec_launches().last();
                    &&& rec.kernel_name@ == kernel.name@
                    &&& rec.source_kind == spec_kind(kernel.source)
                    &&& rec.entry@ == kernel.entry@
                    &&& rec.grid == cfg.grid
                    &&& rec.block == cfg.block
                    &&& rec.arg_count == args@.len()
                }),
            },
    {
        check_ptr_args(&self.allocations, self.info.id, args)?;
        let rec = LaunchRecord {
            kernel_name: kernel.name.clone(),
            source_kind: kernel.source_kind(),
            entry: kernel.entry.clone(),
            grid: cfg.grid,
            block: cfg.block,
            arg_count: args.len(),
        };
        self.launches.push(rec);
        assert(self.launches@.drop_last() =~= old(self).launches@);
        Ok(())
    }

    fn synchronize(&self) -> (r: Result<(), Error>)
        ensures
            r is Ok,
    {
        Ok(())
    }

    fn supports_spirv(&self) -> (r: bool) {
        false
    }

    fn supports_dxil(&self) -> (r: bool) {
        false
    }
}

/// The devices this backend offers: one mock device with identifier
/// `start_id`.
pub fn enumerate(start_id: usize) -> (r: Vec<MockDevice>)
    ensures
        r@.len() == 1,
        r@[0].spec_info().id == start_id,
        r@[0].memory() == Map::<u64, Seq<u8>>::empty(),
        r@[0].spec_launches() == Seq::<LaunchRecord>::empty(),
{
    vec![MockDevice::new(start_id)]
}

} // verus!
