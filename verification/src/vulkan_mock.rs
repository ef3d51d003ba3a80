//! A simulator of the Vulkan (SPIR-V) path that needs no GPU.
//!
//! It accepts SPIR-V and OmniIR kernels only, refuses native ones, and of
//! kernels it simulates `vector_add` / `vector_add_f32` alone.

use vstd::prelude::*;
use crate::device::{DeviceInfo, GpuDevice, GpuVendor, LaunchConfig};
use crate::error::{Error, GpuError};
use crate::ir::{spec_parse, IrModule, IrParse};
use crate::kernel::{spec_kind, CompiledKernel, KernelArg, KernelSource};
use crate::memory::{AllocTable, DevicePtr};
use crate::sim::{run_vector_add_simulation, vector_add_done};
use crate::text::str_eq;

verus! {

/// The first four bytes of a SPIR-V module in little-endian byte order
/// (the magic number 0x07230203).
pub open spec fn spirv_magic() -> Seq<u8> {
    seq![0x03u8, 0x02u8, 0x23u8, 0x07u8]
}

/// The SPIR-V stand-in that the OmniIR path produces for `vector_add_f32`.
pub open spec fn spirv_vector_add_fixture() -> Seq<u8> {
    seq![0x03u8, 0x02u8, 0x23u8, 0x07u8, 0x00u8, 0x00u8, 0x02u8, 0x00u8]
}

/// The SPIR-V check: at least four bytes, starting with the magic.
pub open spec fn spec_validate_spirv(b: Seq<u8>) -> Result<(), Error> {
    if b.len() < 4 {
        Err(Error::InvalidSpirv("buffer is shorter than 4 bytes"))
    } else if b.take(4) != spirv_magic() {
        Err(Error::InvalidSpirv("missing little-endian magic 0x07230203"))
    } else {
        Ok(())
    }
}

/// Check that `bytes` looks like a SPIR-V module.
pub fn validate_spirv(bytes: &[u8]) -> (r: Result<(), Error>)
    ensures
        r == spec_validate_spirv(bytes@),
{
    if bytes.len() < 4 {
        return Err(Error::InvalidSpirv("buffer is shorter than 4 bytes"));
    }
    if bytes[0] != 0x03 || bytes[1] != 0x02 || bytes[2] != 0x23 || bytes[3] != 0x07 {
        assert(bytes@.take(4) != spirv_magic()) by {
            if bytes@.take(4) == spirv_magic() {
                assert(bytes@.take(4)[0] == 0x03u8);
                assert(bytes@.take(4)[1] == 0x02u8);
                assert(bytes@.take(4)[2] == 0x23u8);
                assert(bytes@.take(4)[3] == 0x07u8);
            }
        }
        return Err(Error::InvalidSpirv("missing little-endian magic 0x07230203"));
    }
    assert(bytes@.take(4) =~= spirv_magic());
    Ok(())
}

/// The SPIR-V stand-in for an OmniIR module: only `vector_add_f32` has one.
pub fn compile_omniir_to_spirv_fixture(module: &IrModule) -> (r: Result<Vec<u8>, Error>)
    ensures
        module.name@ == "vector_add_f32"@ ==> (r matches Ok(v) && v@ == spirv_vector_add_fixture()),
        module.name@ != "vector_add_f32"@ ==> (r matches Err(Error::FixtureUnsupported(n)) && n@
            == module.name@),
{
    if !str_eq(module.name.as_str(), "vector_add_f32") {
        return Err(Error::FixtureUnsupported(module.name.clone()));
    }
    let v: Vec<u8> = vec![0x03u8, 0x02u8, 0x23u8, 0x07u8, 0x00u8, 0x00u8, 0x02u8, 0x00u8];
    assert(v@ =~= spirv_vector_add_fixture());
    Ok(v)
}

/// The fixture passes the SPIR-V check.
pub proof fn law_fixture_is_valid_spirv()
    ensures
        spec_validate_spirv(spirv_vector_add_fixture()) is Ok,
{
    assert(spirv_vector_add_fixture().take(4) =~= spirv_magic());
}

/// How a failed OmniIR decode shows in the error it returns.
pub open spec fn ir_failure(p: IrParse, e: Error) -> bool {
    match p {
        IrParse::Module { .. } => false,
        IrParse::MissingMagic => e == Error::InvalidIr("missing OCIR2 magic"),
        IrParse::MissingSeparator => e == Error::InvalidIr("missing name separator"),
        IrParse::NotUtf8(b) => e matches Error::Utf8(m) && m@ == crate::ir::utf8_error_text(b),
        IrParse::Unsupported(n) => e matches Error::UnsupportedIrModule(s) && s@ == n,
    }
}

/// Whether the SPIR-V path accepts a kernel source.
pub open spec fn spirv_path_accepts(src: KernelSource) -> bool {
    match src {
        KernelSource::SpirV(b) => spec_validate_spirv(b@) is Ok,
        KernelSource::OmniIr(b) => spec_parse(b@) is Module,
        _ => false,
    }
}

/// How the SPIR-V path refuses a kernel source it does not accept.
pub open spec fn spirv_path_refusal(src: KernelSource, e: Error) -> bool {
    match src {
        KernelSource::SpirV(b) => spec_validate_spirv(b@) == Err::<(), Error>(e),
        KernelSource::OmniIr(b) => ir_failure(spec_parse(b@), e),
        _ => e == Error::Gpu(GpuError::UnsupportedKernel(spec_kind(src))),
    }
}

/// Check a kernel source for the SPIR-V path.
pub fn check_spirv_source(src: &KernelSource) -> (r: Result<(), Error>)
    ensures
        spirv_path_accepts(*src) ==> r is Ok,
        !spirv_path_accepts(*src) ==> (r matches Err(e) && spirv_path_refusal(*src, e)),
{
    match src {
        KernelSource::SpirV(bytes) => validate_spirv(bytes.as_slice()),
        KernelSource::OmniIr(bytes) => {
            let module = IrModule::decode(bytes.as_slice())?;
            let spirv = compile_omniir_to_spirv_fixture(&module)?;
            proof {
                reveal_strlit("vector_add_f32");
                law_fixture_is_valid_spirv();
            }
            validate_spirv(spirv.as_slice())
        },
        other => Err(Error::Gpu(GpuError::UnsupportedKernel(other.kind()))),
    }
}

/// Whether a kernel name is one that the simulators run.
pub open spec fn is_simulated_name(name: Seq<char>) -> bool {
    name == "vector_add"@ || name == "vector_add_f32"@
}

/// A simulator of the Vulkan path. `plus` adds two 32-bit floats given by
/// their bit patterns.
pub struct VulkanMockDevice<F: Fn(u32, u32) -> u32> {
    info: DeviceInfo,
    allocations: AllocTable,
    plus: F,
}

impl<F: Fn(u32, u32) -> u32> VulkanMockDevice<F> {
    #[verifier::type_invariant]
    spec fn plus_total(&self) -> bool {
        forall|x: u32, y: u32| call_requires(self.plus, (x, y))
    }

    /// The element addition this device simulates with.
    pub closed spec fn spec_plus(&self) -> F {
        self.plus
    }

    /// A fresh simulator with identifier `id`.
    pub fn new(id: usize, plus: F) -> (r: Self)
        requires
            forall|x: u32, y: u32| call_requires(plus, (x, y)),
        ensures
            r.spec_info().id == id,
            r.spec_info().vendor == GpuVendor::Unknown,
            r.spec_info().name@ == "OpenCUDA Vulkan Mock Device (SPIR-V path simulator, no GPU)"@,
            r.spec_info().total_memory == 512 * 1024 * 1024,
            r.spec_info().compute_units == 1,
            r.memory() == Map::<u64, Seq<u8>>::empty(),
            r.next_handle() == 1,
            r.spec_plus() == plus,
    {
        VulkanMockDevice {
            info: DeviceInfo {
                id,
                vendor: GpuVendor::Unknown,
                name: "OpenCUDA Vulkan Mock Device (SPIR-V path simulator, no GPU)".to_owned(),
                total_memory: 512 * 1024 * 1024,
                compute_units: 1,
            },
            allocations: AllocTable::new(),
            plus,
        }
    }
}

impl<F: Fn(u32, u32) -> u32> GpuDevice for VulkanMockDevice<F> {
    closed spec fn spec_info(&self) -> DeviceInfo {
        self.info
    }

    closed spec fn memory(&self) -> Map<u64, Seq<u8>> {
        self.allocations.memory()
    }

    closed spec fn next_handle(&self) -> nat {
        self.allocations.next_handle()
    }

    open spec fn models_memory(&self) -> bool {
        true
    }

    open spec fn spec_supports_spirv(&self) -> bool {
        false
    }

    open spec fn spec_supports_dxil(&self) -> bool {
        false
    }

    fn info(&self) -> (r: &DeviceInfo) {
        &self.info
    }

    fn allocate(&mut self, bytes: usize) -> (r: Result<DevicePtr, Error>)
        ensures
            final(self).spec_plus() == old(self).spec_plus(),
    {
        proof {
            use_type_invariant(&*self);
        }
        let mut table = AllocTable::new();
        std::mem::swap(&mut table, &mut self.allocations);
        let r = table.allocate(self.info.id, bytes);
        std::mem::swap(&mut table, &mut self.allocations);
        r
    }

    fn free(&mut self, ptr: DevicePtr) -> (r: Result<(), Error>)
        ensures
            final(self).spec_plus() == old(self).spec_plus(),
    {
        proof {
            use_type_invariant(&*self);
        }
        let mut table = AllocTable::new();
        std::mem::swap(&mut table, &mut self.allocations);
        let r = table.free(self.info.id, ptr);
        std::mem::swap(&mut table, &mut self.allocations);
        r
    }

    fn memcpy_h2d(&mut self, dst: DevicePtr, src: &[u8]) -> (r: Result<(), Error>)
        ensures
            final(self).spec_plus() == old(self).spec_plus(),
    {
        proof {
            use_type_invariant(&*self);
        }
        let mut table = AllocTable::new();
        std::mem::swap(&mut table, &mut self.allocations);
        let r = table.memcpy_h2d(self.info.id, dst, src);
        std::mem::swap(&mut table, &mut self.allocations);
        r
    }

    fn memcpy_d2h(&self, dst: &mut [u8], src: DevicePtr) -> (r: Result<(), Error>) {
        self.allocations.memcpy_d2h(self.info.id, dst, src)
    }

    fn memcpy_d2d(&mut self, dst: DevicePtr, src: DevicePtr, bytes: usize) -> (r: Result<
        (),
        Error,
    >)
        ensures
            final(self).spec_plus() == old(self).spec_plus(),
    {
        proof {
            use_type_invariant(&*self);
        }
        let mut table = AllocTable::new();
        std::mem::swap(&mut table, &mut self.allocations);
        let r = table.memcpy_d2d(self.info.id, dst, src, bytes);
        std::mem::swap(&mut table, &mut self.allocations);
        r
    }

    /// Check the kernel source, then run the `vector_add` simulation.
    fn launch_kernel(&mut self, kernel: &CompiledKernel, cfg: &LaunchConfig, args: &[KernelArg]) -> (r:
        Result<(), Error>)
        ensures
            final(self).spec_plus() == old(self).spec_plus(),
            final(self).next_handle() == old(self).next_handle(),
            !spirv_path_accepts(kernel.source) ==> (r matches Err(e) && spirv_path_refusal(
                kernel.source,
                e,
            )) && final(self).memory() == old(self).memory(),
            spirv_path_accepts(kernel.source) && !is_simulated_name(kernel.name@) ==> (r matches Err(
                Error::UnsimulatedKernel { simulator, kernel: k },
            ) && simulator == "VulkanMockDevice only simulates vector_add/vector_add_f32 in v0.3.5" && k@ == kernel.name@) && final(self).memory() == old(
                self,
            ).memory(),
            spirv_path_accepts(kernel.source) && is_simulated_name(kernel.name@) ==> vector_add_done(
                old(self).spec_plus(),
                old(self).spec_info().id,
                old(self).memory(),
                args@,
                final(self).memory(),
                r,
            ),
    {
        proof {
            use_type_invariant(&*self);
        }
        check_spirv_source(&kernel.source)?;
        if str_eq(kernel.name.as_str(), "vector_add") || str_eq(
            kernel.name.as_str(),
            "vector_add_f32",
        ) {
            let id = self.info.id;
            let mut table = AllocTable::new();
            std::mem::swap(&mut table, &mut self.allocations);
            let r = run_vector_add_simulation(&mut table, id, &self.plus, args);
            std::mem::swap(&mut table, &mut self.allocations);
            r
        } else {
            Err(
                Error::UnsimulatedKernel {
                    simulator: "VulkanMockDevice only simulates vector_add/vector_add_f32 in v0.3.5",
                    kernel: kernel.name.clone(),
                },
            )
        }
    }

    fn synchronize(&self) -> (r: Result<(), Error>)
        ensures
            r is Ok,
    {
        Ok(())
    }

    fn supports_spirv(&self) -> (r: bool) {
        false
    }

    fn supports_dxil(&self) -> (r: bool) {
        false
    }
}

/// The devices this backend offers: one simulator with identifier `start_id`.
pub fn enumerate<F: Fn(u32, u32) -> u32>(start_id: usize, plus: F) -> (r: Vec<VulkanMockDevice<F>>)
    requires
        forall|x: u32, y: u32| call_requires(plus, (x, y)),
    ensures
        r@.len() == 1,
        r@[0].spec_info().id == start_id,
        r@[0].memory() == Map::<u64, Seq<u8>>::empty(),
        r@[0].spec_plus() == plus,
{
    vec![VulkanMockDevice::new(start_id, plus)]
}

} // verus!
