//! A simulator of the DirectX 12 (DXIL) path that needs no GPU.
//!
//! It accepts DXIL kernels only, and of kernels it simulates `vector_add` /
//! `vector_add_f32` alone.

use vstd::prelude::*;
use crate::device::{DeviceInfo, GpuDevice, GpuVendor, LaunchConfig};
use crate::error::{Error, GpuError};
use crate::kernel::{spec_kind, CompiledKernel, KernelArg, KernelSource};
use crate::memory::{AllocTable, DevicePtr};
use crate::sim::{run_vector_add_simulation, vector_add_done};
use crate::text::str_eq;
use crate::vulkan_mock::is_simulated_name;

verus! {

/// The first four bytes of a DXBC container, in which DXIL is shipped: `DXBC`.
pub open spec fn dxbc_magic() -> Seq<u8> {
    seq![0x44u8, 0x58u8, 0x42u8, 0x43u8]
}

/// The DXIL check: at least four bytes, starting with `DXBC`.
pub open spec fn spec_validate_dxil(b: Seq<u8>) -> Result<(), Error> {
    if b.len() < 4 {
        Err(Error::InvalidDxil("buffer is shorter than 4 bytes"))
    } else if b.take(4) != dxbc_magic() {
        Err(Error::InvalidDxil("missing DXBC container magic \"DXBC\""))
    } else {
        Ok(())
    }
}

/// Check that `bytes` looks like a DXIL container.
pub fn validate_dxil(bytes: &[u8]) -> (r: Result<(), Error>)
    ensures
        r == spec_validate_dxil(bytes@),
{
    if bytes.len() < 4 {
        return Err(Error::InvalidDxil("buffer is shorter than 4 bytes"));
    }
    if bytes[0] != 0x44 || bytes[1] != 0x58 || bytes[2] != 0x42 || bytes[3] != 0x43 {
        assert(bytes@.take(4) != dxbc_magic()) by {
            if bytes@.take(4) == dxbc_magic() {
                assert(bytes@.take(4)[0] == 0x44u8);
                assert(bytes@.take(4)[1] == 0x58u8);
                assert(bytes@.take(4)[2] == 0x42u8);
                assert(bytes@.take(4)[3] == 0x43u8);
            }
        }
        return Err(Error::InvalidDxil("missing DXBC container magic \"DXBC\""));
    }
    assert(bytes@.take(4) =~= dxbc_magic());
    Ok(())
}

/// Whether the DXIL path accepts a kernel source.
pub open spec fn dxil_path_accepts(src: KernelSource) -> bool {
    match src {
        KernelSource::Dxil(b) => spec_validate_dxil(b@) is Ok,
        _ => false,
    }
}

/// How the DXIL path refuses a kernel source it does not accept.
pub open spec fn dxil_path_refusal(src: KernelSource, e: Error) -> bool {
    match src {
        KernelSource::Dxil(b) => spec_validate_dxil(b@) == Err::<(), Error>(e),
        _ => e == Error::Gpu(GpuError::UnsupportedKernel(spec_kind(src))),
    }
}

/// Check a kernel source for the DXIL path.
pub fn check_dxil_source(src: &KernelSource) -> (r: Result<(), Error>)
    ensures
        dxil_path_accepts(*src) ==> r is Ok,
        !dxil_path_accepts(*src) ==> (r matches Err(e) && dxil_path_refusal(*src, e)),
{
    match src {
        KernelSource::Dxil(bytes) => validate_dxil(bytes.as_slice()),
        other => Err(Error::Gpu(GpuError::UnsupportedKernel(other.kind()))),
    }
}

/// A simulator of the DirectX 12 path. `plus` adds two 32-bit floats given by
/// their bit patterns.
pub struct DirectXMockDevice<F: Fn(u32, u32) -> u32> {
    info: DeviceInfo,
    allocations: AllocTable,
    plus: F,
}

impl<F: Fn(u32, u32) -> u32> DirectXMockDevice<F> {
    #[verifier::type_invariant]
    spec fn plus_total(&self) -> bool {
        forall|x: u32, y: u32| call_requires(self.plus, (x, y))
    }

    /// The element addition this device simulates with.
    pub closed spec fn spec_plus(&self) -> F {
        self.plus
    }

    /// A fresh simulator with identifier `id`.
    pub fn new(id: usize, plus: F) -> (r: Self)
        requires
            forall|x: u32, y: u32| call_requires(plus, (x, y)),
        ensures
            r.spec_info().id == id,
            r.spec_info().vendor == GpuVendor::Unknown,
            r.spec_info().name@ == "OpenCUDA DirectX Mock Device (DXIL path simulator, no GPU)"@,
            r.spec_info().total_memory == 512 * 1024 * 1024,
            r.spec_info().compute_units == 1,
            r.memory() == Map::<u64, Seq<u8>>::empty(),
            r.next_handle() == 1,
            r.spec_plus() == plus,
    {
        DirectXMockDevice {
            info: DeviceInfo {
                id,
                vendor: GpuVendor::Unknown,
                name: "OpenCUDA DirectX Mock Device (DXIL path simulator, no GPU)".to_owned(),
                total_memory: 512 * 1024 * 1024,
                compute_units: 1,
            },
            allocations: AllocTable::new(),
            plus,
        }
    }
}

impl<F: Fn(u32, u32) -> u32> GpuDevice for DirectXMockDevice<F> {
    closed spec fn spec_info(&self) -> DeviceInfo {
        self.info
    }

    closed spec fn memory(&self) -> Map<u64, Seq<u8>> {
        self.allocations.memory()
    }

    closed spec fn next_handle(&self) -> nat {
        self.allocations.next_handle()
    }

    open spec fn models_memory(&self) -> bool {
        true
    }

    open spec fn spec_supports_spirv(&self) -> bool {
        false
    }

    open spec fn spec_supports_dxil(&self) -> bool {
        true
    }

    fn info(&self) -> (r: &DeviceInfo) {
        &self.info
    }

    fn allocate(&mut self, bytes: usize) -> (r: Result<DevicePtr, Error>)
        ensures
            final(self).spec_plus() == old(self).spec_plus(),
    {
        proof {
            use_type_invariant(&*self);
        }
        let mut table = AllocTable::new();
        std::mem::swap(&mut table, &mut self.allocations);
        let r = table.allocate(self.info.id, bytes);
        std::mem::swap(&mut table, &mut self.allocations);
        r
    }

    fn free(&mut self, ptr: DevicePtr) -> (r: Result<(), Error>)
        ensures
            final(self).spec_plus() == old(self).spec_plus(),
    {
        proof {
            use_type_invariant(&*self);
        }
        let mut table = AllocTable::new();
        std::mem::swap(&mut table, &mut self.allocations);
        let r = table.free(self.info.id, ptr);
        std::mem::swap(&mut table, &mut self.allocations);
        r
    }

    fn memcpy_h2d(&mut self, dst: DevicePtr, src: &[u8]) -> (r: Result<(), Error>)
        ensures
            final(self).spec_plus() == old(self).spec_plus(),
    {
        proof {
            use_type_invariant(&*self);
        }
        let mut table = AllocTable::new();
        std::mem::swap(&mut table, &mut self.allocations);
        let r = table.memcpy_h2d(self.info.id, dst, src);
        std::mem::swap(&mut table, &mut self.allocations);
        r
    }

    fn memcpy_d2h(&self, dst: &mut [u8], src: DevicePtr) -> (r: Result<(), Error>) {
        self.allocations.memcpy_d2h(self.info.id, dst, src)
    }

    fn memcpy_d2d(&mut self, dst: DevicePtr, src: DevicePtr, bytes: usize) -> (r: Result<
        (),
        Error,
    >)
        ensures
            final(self).spec_plus() == old(self).spec_plus(),
    {
        proof {
            use_type_invariant(&*self);
        }
        let mut table = AllocTable::new();
        std::mem::swap(&mut table, &mut self.allocations);
        let r = table.memcpy_d2d(self.info.id, dst, src, bytes);
        std::mem::swap(&mut table, &mut self.allocations);
        r
    }

    /// Check the kernel source, then run the `vector_add` simulation.
    fn launch_kernel(&mut self, kernel: &CompiledKernel, cfg: &LaunchConfig, args: &[KernelArg]) -> (r:
        Result<(), Error>)
        ensures
            final(self).spec_plus() == old(self).spec_plus(),
            final(self).next_handle() == old(self).next_handle(),
            !dxil_path_accepts(kernel.source) ==> (r matches Err(e) && dxil_path_refusal(
                kernel.source,
                e,
            )) && final(self).memory() == old(self).memory(),
            dxil_path_accepts(kernel.source) && !is_simulated_name(kernel.name@) ==> (r matches Err(
                Error::UnsimulatedKernel { simulator, kernel: k },
            ) && simulator == "DirectXMockDevice only simulates vector_add/vector_add_f32" && k@ == kernel.name@) && final(self).memory() == old(
                self,
            ).memory(),
            dxil_path_accepts(kernel.source) && is_simulated_name(kernel.name@) ==> vector_add_done(
                old(self).spec_plus(),
                old(self).spec_info().id,
                old(self).memory(),
                args@,
                final(self).memory(),
                r,
            ),
    {
        proof {
            use_type_invariant(&*self);
        }
        check_dxil_source(&kernel.source)?;
        if str_eq(kernel.name.as_str(), "vector_add") || str_eq(
            kernel.name.as_str(),
            "vector_add_f32",
        ) {
            let id = self.info.id;
            let mut table = AllocTable::new();
            std::mem::swap(&mut table, &mut self.allocations);
            let r = run_vector_add_simulation(&mut table, id, &self.plus, args);
            std::mem::swap(&mut table, &mut self.allocations);
            r
        } else {
            Err(
                Error::UnsimulatedKernel {
                    simulator: "DirectXMockDevice only simulates vector_add/vector_add_f32",
                    kernel: kernel.name.clone(),
                },
            )
        }
    }

    fn synchronize(&self) -> (r: Result<(), Error>)
        ensures
            r is Ok,
    {
        Ok(())
    }

    fn supports_spirv(&self) -> (r: bool) {
        false
    }

    fn supports_dxil(&self) -> (r: bool) {
        true
    }
}

/// The devices this backend offers: one simulator with identifier `start_id`.
pub fn enumerate<F: Fn(u32, u32) -> u32>(start_id: usize, plus: F) -> (r: Vec<DirectXMockDevice<F>>)
    requires
        forall|x: u32, y: u32| call_requires(plus, (x, y)),
    ensures
        r@.len() == 1,
        r@[0].spec_info().id == start_id,
        r@[0].memory() == Map::<u64, Seq<u8>>::empty(),
        r@[0].spec_plus() == plus,
{
    vec![DirectXMockDevice::new(start_id, plus)]
}

} // verus!
