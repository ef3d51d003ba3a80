//! The decisions of the real Vulkan backend that do not touch the driver:
//! decoding what a physical device reports, choosing a memory type, routing a
//! kernel to its dispatch path, checking the argument contract of each kernel,
//! and turning SPIR-V bytes into the words a shader module is made from.
//!
//! The driver calls themselves (instance and device creation, buffers, command
//! submission) hand this module plain values: raw enum values, flag words,
//! heap sizes and allocation lengths.

use vstd::prelude::*;
use crate::device::GpuVendor;
use crate::error::{Error, GpuError};
use crate::fmt::{append_decimal, append_hex_padded, decimal, hex_padded};
use crate::kernel::{CompiledKernel, KernelArg, KernelSource, spec_kind};
use crate::memory::{DevicePtr, le_words};
use crate::text::str_eq;
use vstd::bytes::u32_from_le_bytes;

verus! {

/// `VK_MEMORY_PROPERTY_HOST_VISIBLE_BIT`.
pub const MEMORY_PROPERTY_HOST_VISIBLE: u32 = 2;

/// `VK_MEMORY_PROPERTY_HOST_COHERENT_BIT`.
pub const MEMORY_PROPERTY_HOST_COHERENT: u32 = 4;

/// The major field of a packed Vulkan version (bits 22 to 28).
pub open spec fn version_major(v: u32) -> u32 {
    (v >> 22u32) & 0x7fu32
}

/// The minor field of a packed Vulkan version (bits 12 to 21).
pub open spec fn version_minor(v: u32) -> u32 {
    (v >> 12u32) & 0x3ffu32
}

/// The patch field of a packed Vulkan version (bits 0 to 11).
pub open spec fn version_patch(v: u32) -> u32 {
    v & 0xfffu32
}

/// `ash::vk::api_version_major`: ash computes `(version >> 22) & 0x7f`.
#[verifier::external_body]
fn api_version_major(version: u32) -> (r: u32)
    ensures
        r == version_major(version),
{
    ash::vk::api_version_major(version)
}

/// `ash::vk::api_version_minor`: ash computes `(version >> 12) & 0x3ff`.
#[verifier::external_body]
fn api_version_minor(version: u32) -> (r: u32)
    ensures
        r == version_minor(version),
{
    ash::vk::api_version_minor(version)
}

/// `ash::vk::api_version_patch`: ash computes `version & 0xfff`.
#[verifier::external_body]
fn api_version_patch(version: u32) -> (r: u32)
    ensures
        r == version_patch(version),
{
    ash::vk::api_version_patch(version)
}

/// `ash::vk::MemoryPropertyFlags::contains` on raw flag words: ash's bitflags
/// test `self & other == other`.
#[verifier::external_body]
fn memory_flags_contain(flags: u32, wanted: u32) -> (r: bool)
    ensures
        r == (flags & wanted == wanted),
{
    ash::vk::MemoryPropertyFlags::from_raw(flags).contains(
        ash::vk::MemoryPropertyFlags::from_raw(wanted),
    )
}

/// `ash::vk::MemoryHeapFlags::contains(DEVICE_LOCAL)` on a raw flag word: ash
/// defines `DEVICE_LOCAL` as bit 0 and tests `self & other == other`.
#[verifier::external_body]
fn heap_flags_device_local(flags: u32) -> (r: bool)
    ensures
        r == (flags & 1u32 == 1u32),
{
    ash::vk::MemoryHeapFlags::from_raw(flags).contains(ash::vk::MemoryHeapFlags::DEVICE_LOCAL)
}

/// The name of a `VkPhysicalDeviceType` raw value; values outside the
/// enumeration read as `OTHER`.
pub open spec fn device_type_name(t: i32) -> Seq<char> {
    if t == 2 {
        "DISCRETE_GPU"@
    } else if t == 1 {
        "INTEGRATED_GPU"@
    } else if t == 3 {
        "VIRTUAL_GPU"@
    } else if t == 4 {
        "CPU"@
    } else {
        "OTHER"@
    }
}

/// The name of a `VkPhysicalDeviceType` raw value.
pub fn device_type_str(t: i32) -> (r: &'static str)
    ensures
        r@ == device_type_name(t),
{
    if t == 2 {
        "DISCRETE_GPU"
    } else if t == 1 {
        "INTEGRATED_GPU"
    } else if t == 3 {
        "VIRTUAL_GPU"
    } else if t == 4 {
        "CPU"
    } else {
        "OTHER"
    }
}

/// `major.minor.patch` of a packed Vulkan version, each field in decimal.
pub open spec fn version_text(v: u32) -> Seq<char> {
    decimal(version_major(v) as nat) + "."@ + decimal(version_minor(v) as nat) + "."@
        + decimal(version_patch(v) as nat)
}

/// Vulkan-specific facts about the device in use, beside the backend-neutral
/// `DeviceInfo`.
#[derive(Clone, Copy, Debug, PartialEq, Eq)]
pub struct VulkanDiagnostics {
    pub queue_family_index: u32,
    /// The raw `VkPhysicalDeviceType` value.
    pub device_type: i32,
    /// The packed `VK_MAKE_API_VERSION` value.
    pub api_version: u32,
    /// Packed as `VK_MAKE_API_VERSION`, though some vendors use a layout of
    /// their own for it.
    pub driver_version: u32,
}

fn append_version(s: &mut String, v: u32)
    ensures
        final(s)@ == old(s)@ + version_text(v),
{
    let major = api_version_major(v);
    let minor = api_version_minor(v);
    let patch = api_version_patch(v);
    append_decimal(s, major as u64);
    s.append(".");
    append_decimal(s, minor as u64);
    s.append(".");
    append_decimal(s, patch as u64);
    assert(s@ =~= old(s)@ + version_text(v));
}

impl VulkanDiagnostics {
    pub fn device_type_str(&self) -> (r: &'static str)
        ensures
            r@ == device_type_name(self.device_type),
    {
        device_type_str(self.device_type)
    }

    /// The API version as `major.minor.patch`.
    pub fn api_version_str(&self) -> (r: String)
        ensures
            r@ == version_text(self.api_version),
    {
        let mut s = String::new();
        append_version(&mut s, self.api_version);
        assert(s@ =~= version_text(self.api_version));
        s
    }

    /// The driver version decoded as an API version, followed by the raw value
    /// in eight hexadecimal digits.
    pub fn driver_version_str(&self) -> (r: String)
        ensures
            r@ == version_text(self.driver_version) + " (raw=0x"@ + hex_padded(
                self.driver_version as nat,
                8,
            ) + ")"@,
    {
        let mut s = String::new();
        append_version(&mut s, self.driver_version);
        s.append(" (raw=0x");
        append_hex_padded(&mut s, self.driver_version as u64, 8);
        s.append(")");
        assert(s@ =~= version_text(self.driver_version) + " (raw=0x"@ + hex_padded(
            self.driver_version as nat,
            8,
        ) + ")"@);
        s
    }
}

/// The vendor that a PCI/Vulkan vendor identifier names. The architecture of
/// the vendors that carry one is not known from the identifier alone.
pub open spec fn vendor_for_id(id: u32, v: GpuVendor) -> bool {
    if id == 0x10DE {
        v == (GpuVendor::Nvidia { compute_capability: (0, 0) })
    } else if id == 0x1002 || id == 0x1022 {
        v matches GpuVendor::Amd { gfx_version } && gfx_version@ == "unknown"@
    } else if id == 0x8086 {
        v matches GpuVendor::Intel { architecture } && architecture@ == "unknown"@
    } else if id == 0x5143 {
        v matches GpuVendor::Qualcomm { architecture } && architecture@ == "unknown"@
    } else if id == 0x13B5 {
        v matches GpuVendor::Arm { architecture } && architecture@ == "unknown"@
    } else if id == 0x1010 {
        v matches GpuVendor::ImaginationPowerVr { architecture } && architecture@ == "unknown"@
    } else {
        v == GpuVendor::Unknown
    }
}

/// The vendor of a physical device from its vendor identifier.
pub fn vendor_from_id(vendor_id: u32) -> (r: GpuVendor)
    ensures
        vendor_for_id(vendor_id, r),
{
    if vendor_id == 0x10DE {
        GpuVendor::Nvidia { compute_capability: (0, 0) }
    } else if vendor_id == 0x1002 || vendor_id == 0x1022 {
        GpuVendor::Amd { gfx_version: "unknown".to_owned() }
    } else if vendor_id == 0x8086 {
        GpuVendor::Intel { architecture: "unknown".to_owned() }
    } else if vendor_id == 0x5143 {
        GpuVendor::Qualcomm { architecture: "unknown".to_owned() }
    } else if vendor_id == 0x13B5 {
        GpuVendor::Arm { architecture: "unknown".to_owned() }
    } else if vendor_id == 0x1010 {
        GpuVendor::ImaginationPowerVr { architecture: "unknown".to_owned() }
    } else {
        GpuVendor::Unknown
    }
}

/// One memory heap of a physical device: its size in bytes and its raw
/// `VkMemoryHeapFlags`.
#[derive(Clone, Copy, Debug, PartialEq, Eq)]
pub struct MemoryHeap {
    pub size: u64,
    pub flags: u32,
}

/// The total size of the device-local heaps among `heaps`.
pub open spec fn device_local_total(heaps: Seq<MemoryHeap>) -> nat
    decreases heaps.len(),
{
    if heaps.len() == 0 {
        0
    } else {
        device_local_total(heaps.drop_last()) + if heaps.last().flags & 1u32 == 1u32 {
            heaps.last().size as nat
        } else {
            0nat
        }
    }
}

/// The device-local memory of a device: the sizes of its device-local heaps
/// added up, saturating at `u64::MAX`.
pub fn estimate_device_local_memory(heaps: &[MemoryHeap]) -> (r: u64)
    ensures
        r == if device_local_total(heaps@) > u64::MAX {
            u64::MAX as nat
        } else {
            device_local_total(heaps@)
        },
{
    let mut total: u64 = 0;
    let mut i: usize = 0;
    while i < heaps.len()
        invariant
            i <= heaps.len(),
            total == if device_local_total(heaps@.take(i as int)) > u64::MAX {
                u64::MAX as nat
            } else {
                device_local_total(heaps@.take(i as int))
            },
        decreases heaps.len() - i,
    {
        let heap = heaps[i];
        assert(heaps@.take(i as int + 1).drop_last() =~= heaps@.take(i as int));
        if heap_flags_device_local(heap.flags) {
            total = total.saturating_add(heap.size);
        }
        i = i + 1;
    }
    assert(heaps@.take(i as int) =~= heaps@);
    total
}

/// Whether memory type `i` is allowed by the requirement bits `bits` and has
/// every flag of `wanted`.
pub open spec fn memory_type_fits(bits: u32, types: Seq<u32>, wanted: u32, i: int) -> bool {
    &&& 0 <= i < types.len()
    &&& i < 32
    &&& bits & (1u32 << (i as u32)) != 0
    &&& types[i] & wanted == wanted
}

/// The first memory type from index `i` on that fits.
pub open spec fn first_fit_from(bits: u32, types: Seq<u32>, wanted: u32, i: int) -> Option<u32>
    decreases types.len() - i,
{
    if i < 0 || i >= types.len() {
        None
    } else if memory_type_fits(bits, types, wanted, i) {
        Some(i as u32)
    } else {
        first_fit_from(bits, types, wanted, i + 1)
    }
}

/// The index of the first memory type that fits, if any does.
pub open spec fn first_fit(bits: u32, types: Seq<u32>, wanted: u32) -> Option<u32> {
    first_fit_from(bits, types, wanted, 0)
}

/// The first of the device's memory types (each given by its raw
/// `VkMemoryPropertyFlags`) that the requirement bits allow and that has every
/// flag of `wanted`.
pub fn find_memory_type(bits: u32, types: &[u32], wanted: u32) -> (r: Result<u32, Error>)
    requires
        types.len() <= 32,
    ensures
        r == match first_fit(bits, types@, wanted) {
            Some(i) => Ok::<u32, Error>(i),
            None => Err(Error::NoMemoryType(wanted)),
        },
{
    let mut i: usize = 0;
    while i < types.len()
        invariant
            i <= types.len() <= 32,
            first_fit(bits, types@, wanted) == first_fit_from(bits, types@, wanted, i as int),
        decreases types.len() - i,
    {
        let supported = (bits & (1u32 << (i as u32))) != 0;
        let has_flags = memory_flags_contain(types[i], wanted);
        if supported && has_flags {
            return Ok(i as u32);
        }
        i = i + 1;
    }
    Err(Error::NoMemoryType(wanted))
}

/// The memory type for a mapped buffer: a host-visible and host-coherent one
/// if the device has one, else a host-visible one; the flag says whether the
/// type is coherent (if not, host writes and reads must be flushed and
/// invalidated).
pub open spec fn host_visible_choice(bits: u32, types: Seq<u32>) -> Result<(u32, bool), Error> {
    match first_fit(bits, types, MEMORY_PROPERTY_HOST_VISIBLE | MEMORY_PROPERTY_HOST_COHERENT) {
        Some(i) => Ok((i, true)),
        None => match first_fit(bits, types, MEMORY_PROPERTY_HOST_VISIBLE) {
            Some(i) => Ok((i, false)),
            None => Err(Error::NoMemoryType(MEMORY_PROPERTY_HOST_VISIBLE)),
        },
    }
}

/// Choose the memory type of a mapped buffer (see `host_visible_choice`).
pub fn find_host_visible_memory_type(bits: u32, types: &[u32]) -> (r: Result<(u32, bool), Error>)
    requires
        types.len() <= 32,
    ensures
        r == host_visible_choice(bits, types@),
{
    match find_memory_type(bits, types, MEMORY_PROPERTY_HOST_VISIBLE | MEMORY_PROPERTY_HOST_COHERENT) {
        Ok(i) => Ok((i, true)),
        Err(_) => match find_memory_type(bits, types, MEMORY_PROPERTY_HOST_VISIBLE) {
            Ok(i) => Ok((i, false)),
            Err(e) => Err(e),
        },
    }
}

proof fn lemma_first_fit_from(bits: u32, types: Seq<u32>, wanted: u32, i: int)
    requires
        0 <= i,
    ensures
        first_fit_from(bits, types, wanted, i) matches Some(k) ==> i <= k < types.len()
            && memory_type_fits(bits, types, wanted, k as int)
            && forall|j: int| i <= j < k ==> !memory_type_fits(bits, types, wanted, j),
        first_fit_from(bits, types, wanted, i) is None ==> forall|j: int|
            i <= j < types.len() ==> !memory_type_fits(bits, types, wanted, j),
    decreases types.len() - i,
{
    if i < types.len() && !memory_type_fits(bits, types, wanted, i) {
        lemma_first_fit_from(bits, types, wanted, i + 1);
    }
}

/// The memory type chosen for a mapped buffer is host visible and allowed by
/// the requirement bits; it is reported coherent exactly when it is host
/// coherent too, and a non-coherent one is chosen only when no allowed type is
/// both.
pub proof fn law_host_visible_choice(bits: u32, types: Seq<u32>)
    requires
        types.len() <= 32,
    ensures
        host_visible_choice(bits, types) matches Ok((i, coherent)) ==> {
            &&& memory_type_fits(bits, types, MEMORY_PROPERTY_HOST_VISIBLE, i as int)
            &&& coherent ==> memory_type_fits(
                bits,
                types,
                MEMORY_PROPERTY_HOST_VISIBLE | MEMORY_PROPERTY_HOST_COHERENT,
                i as int,
            )
            &&& !coherent ==> forall|j: int|
                0 <= j < types.len() ==> !memory_type_fits(
                    bits,
                    types,
                    MEMORY_PROPERTY_HOST_VISIBLE | MEMORY_PROPERTY_HOST_COHERENT,
                    j,
                )
        },
        host_visible_choice(bits, types) is Err ==> forall|j: int|
            0 <= j < types.len() ==> !memory_type_fits(bits, types, MEMORY_PROPERTY_HOST_VISIBLE, j),
{
    let both = MEMORY_PROPERTY_HOST_VISIBLE | MEMORY_PROPERTY_HOST_COHERENT;
    lemma_first_fit_from(bits, types, both, 0);
    lemma_first_fit_from(bits, types, MEMORY_PROPERTY_HOST_VISIBLE, 0);
    assert(2u32 | 4u32 == 6u32) by (bit_vector);
    assert forall|t: u32| t & 6u32 == 6u32 implies t & 2u32 == 2u32 by {
        assert(t & 6u32 == 6u32 ==> t & 2u32 == 2u32) by (bit_vector);
    }
}

/// SPIR-V bytes as little-endian 32-bit words; the length must be a multiple
/// of four.
pub fn bytes_to_u32_words(bytes: &[u8]) -> (r: Result<Vec<u32>, Error>)
    ensures
        bytes.len() % 4 == 0 ==> (r matches Ok(w) && w@ == le_words(bytes@, bytes.len() as nat / 4)),
        bytes.len() % 4 != 0 ==> r == Err::<Vec<u32>, Error>(Error::SpirvLength(bytes.len())),
{
    if bytes.len() % 4 != 0 {
        return Err(Error::SpirvLength(bytes.len()));
    }
    let n = bytes.len() / 4;
    let mut out: Vec<u32> = Vec::new();
    let mut k: usize = 0;
    while k < n
        invariant
            n == bytes.len() / 4,
            bytes.len() % 4 == 0,
            k <= n,
            out@ =~= le_words(bytes@, k as nat),
        decreases n - k,
    {
        let chunk = vstd::slice::slice_subrange(bytes, 4 * k, 4 * k + 4);
        let w = u32_from_le_bytes(chunk);
        out.push(w);
        k = k + 1;
        assert(out@ =~= le_words(bytes@, k as nat));
    }
    Ok(out)
}

/// The dispatch paths of the real Vulkan backend.
#[derive(Clone, Copy, Debug, PartialEq, Eq, Structural)]
pub enum VulkanKernel {
    VectorAdd,
    Matmul,
    Raid6XorParity,
}

/// The dispatch path for a kernel name, if the backend has one.
pub open spec fn path_for_name(name: Seq<char>) -> Option<VulkanKernel> {
    if name == "vector_add"@ || name == "vector_add_f32"@ {
        Some(VulkanKernel::VectorAdd)
    } else if name == "matmul"@ || name == "matmul_f32"@ {
        Some(VulkanKernel::Matmul)
    } else if name == "raid6_xor_parity"@ {
        Some(VulkanKernel::Raid6XorParity)
    } else {
        None
    }
}

/// The dispatch path of a kernel: only SPIR-V is accepted, and only under the
/// names the backend implements.
pub fn route_kernel(kernel: &CompiledKernel) -> (r: Result<VulkanKernel, Error>)
    ensures
        !(kernel.source is SpirV) ==> r == Err::<VulkanKernel, Error>(
            Error::Gpu(GpuError::UnsupportedKernel(spec_kind(kernel.source))),
        ),
        kernel.source is SpirV ==> match path_for_name(kernel.name@) {
            Some(k) => r == Ok::<VulkanKernel, Error>(k),
            None => r matches Err(Error::KernelNotImplemented(n)) && n@ == kernel.name@,
        },
{
    match &kernel.source {
        KernelSource::SpirV(_) => {},
        _ => return Err(Error::Gpu(GpuError::UnsupportedKernel(kernel.source_kind()))),
    }
    let name = kernel.name.as_str();
    if str_eq(name, "vector_add") || str_eq(name, "vector_add_f32") {
        Ok(VulkanKernel::VectorAdd)
    } else if str_eq(name, "matmul") || str_eq(name, "matmul_f32") {
        Ok(VulkanKernel::Matmul)
    } else if str_eq(name, "raid6_xor_parity") {
        Ok(VulkanKernel::Raid6XorParity)
    } else {
        Err(Error::KernelNotImplemented(kernel.name.clone()))
    }
}

/// The pointer an argument carries.
pub open spec fn arg_ptr(a: KernelArg) -> Option<DevicePtr> {
    match a {
        KernelArg::Ptr(p) => Some(p),
        _ => None,
    }
}

/// The size an argument carries (`usize`, or `u32` widened).
pub open spec fn arg_size(a: KernelArg) -> Option<usize> {
    match a {
        KernelArg::Usize(v) => Some(v),
        KernelArg::U32(v) => Some(v as usize),
        _ => None,
    }
}

/// The `vector_add` argument contract: `a, b, c` pointers and `n` a size.
pub open spec fn vector_add_contract(args: Seq<KernelArg>) -> Result<
    (DevicePtr, DevicePtr, DevicePtr, usize),
    Error,
> {
    if args.len() != 4 {
        Err(Error::Argument("vector_add expects 4 args: a, b, c, n"))
    } else if arg_ptr(args[0]) is None {
        Err(Error::Argument("arg0 must be pointer"))
    } else if arg_ptr(args[1]) is None {
        Err(Error::Argument("arg1 must be pointer"))
    } else if arg_ptr(args[2]) is None {
        Err(Error::Argument("arg2 must be pointer"))
    } else if arg_size(args[3]) is None {
        Err(Error::Argument("arg3 must be usize/u32"))
    } else {
        Ok(
            (
                arg_ptr(args[0]).unwrap(),
                arg_ptr(args[1]).unwrap(),
                arg_ptr(args[2]).unwrap(),
                arg_size(args[3]).unwrap(),
            ),
        )
    }
}

/// Check a `vector_add` launch's arguments against its contract.
pub fn vector_add_args(args: &[KernelArg]) -> (r: Result<(DevicePtr, DevicePtr, DevicePtr, usize), Error>)
    ensures
        r == vector_add_contract(args@),
{
    if args.len() != 4 {
        return Err(Error::Argument("vector_add expects 4 args: a, b, c, n"));
    }
    let a = match args[0].as_ptr() {
        Some(p) => p,
        None => return Err(Error::Argument("arg0 must be pointer")),
    };
    let b = match args[1].as_ptr() {
        Some(p) => p,
        None => return Err(Error::Argument("arg1 must be pointer")),
    };
    let c = match args[2].as_ptr() {
        Some(p) => p,
        None => return Err(Error::Argument("arg2 must be pointer")),
    };
    let n = match args[3].as_usize() {
        Some(v) => v,
        None => return Err(Error::Argument("arg3 must be usize/u32")),
    };
    Ok((a, b, c, n))
}

/// The sizes of a `vector_add` launch: `n` floats must fit in each of the
/// three buffers, and `n` is passed as a 32-bit push constant.
pub open spec fn vector_add_push(n: usize, a_len: usize, b_len: usize, c_len: usize) -> Result<
    u32,
    Error,
> {
    if n * 4 > usize::MAX {
        Err(Error::Argument("byte size overflow"))
    } else if n * 4 > a_len || n * 4 > b_len || n * 4 > c_len {
        Err(Error::BuffersTooSmall { what: "vector_add buffer", need: (n * 4) as usize })
    } else if n > u32::MAX {
        Err(Error::TooLargeForU32("vector_add n"))
    } else {
        Ok(n as u32)
    }
}

/// Check the buffer lengths of a `vector_add` launch and give its push
/// constant.
pub fn vector_add_push_constant(n: usize, a_len: usize, b_len: usize, c_len: usize) -> (r: Result<
    u32,
    Error,
>)
    ensures
        r == vector_add_push(n, a_len, b_len, c_len),
{
    let bytes = match n.checked_mul(4) {
        Some(v) => v,
        None => return Err(Error::Argument("byte size overflow")),
    };
    if bytes > a_len || bytes > b_len || bytes > c_len {
        return Err(Error::BuffersTooSmall { what: "vector_add buffer", need: bytes });
    }
    if n > 0xffff_ffff {
        return Err(Error::TooLargeForU32("vector_add n"));
    }
    Ok(n as u32)
}

/// The `matmul` argument contract: `a, b, c` pointers and `m, k, n` sizes
/// (row-major A of m×k, B of k×n, C of m×n).
pub open spec fn matmul_contract(args: Seq<KernelArg>) -> Result<
    (DevicePtr, DevicePtr, DevicePtr, usize, usize, usize),
    Error,
> {
    if args.len() != 6 {
        Err(Error::Argument("matmul expects 6 args: a, b, c, m, k, n"))
    } else if arg_ptr(args[0]) is None {
        Err(Error::Argument("arg0 must be pointer"))
    } else if arg_ptr(args[1]) is None {
        Err(Error::Argument("arg1 must be pointer"))
    } else if arg_ptr(args[2]) is None {
        Err(Error::Argument("arg2 must be pointer"))
    } else if arg_size(args[3]) is None {
        Err(Error::Argument("arg3 (m) must be usize/u32"))
    } else if arg_size(args[4]) is None {
        Err(Error::Argument("arg4 (k) must be usize/u32"))
    } else if arg_size(args[5]) is None {
        Err(Error::Argument("arg5 (n) must be usize/u32"))
    } else {
        Ok(
            (
                arg_ptr(args[0]).unwrap(),
                arg_ptr(args[1]).unwrap(),
                arg_ptr(args[2]).unwrap(),
                arg_size(args[3]).unwrap(),
                arg_size(args[4]).unwrap(),
                arg_size(args[5]).unwrap(),
            ),
        )
    }
}

/// Check a `matmul` launch's arguments against its contract.
pub fn matmul_args(args: &[KernelArg]) -> (r: Result<
    (DevicePtr, DevicePtr, DevicePtr, usize, usize, usize),
    Error,
>)
    ensures
        r == matmul_contract(args@),
{
    if args.len() != 6 {
        return Err(Error::Argument("matmul expects 6 args: a, b, c, m, k, n"));
    }
    let a = match args[0].as_ptr() {
        Some(p) => p,
        None => return Err(Error::Argument("arg0 must be pointer")),
    };
    let b = match args[1].as_ptr() {
        Some(p) => p,
        None => return Err(Error::Argument("arg1 must be pointer")),
    };
    let c = match args[2].as_ptr() {
        Some(p) => p,
        None => return Err(Error::Argument("arg2 must be pointer")),
    };
    let m = match args[3].as_usize() {
        Some(v) => v,
        None => return Err(Error::Argument("arg3 (m) must be usize/u32")),
    };
    let k = match args[4].as_usize() {
        Some(v) => v,
        None => return Err(Error::Argument("arg4 (k) must be usize/u32")),
    };
    let n = match args[5].as_usize() {
        Some(v) => v,
        None => return Err(Error::Argument("arg5 (n) must be usize/u32")),
    };
    Ok((a, b, c, m, k, n))
}

/// The byte size of `rows × cols` 32-bit elements, if it fits in `usize`.
pub open spec fn matrix_bytes(rows: usize, cols: usize) -> Option<usize> {
    if rows * cols * 4 > usize::MAX {
        None
    } else {
        Some((rows * cols * 4) as usize)
    }
}

fn checked_matrix_bytes(rows: usize, cols: usize) -> (r: Option<usize>)
    ensures
        r == matrix_bytes(rows, cols),
{
    match rows.checked_mul(cols) {
        Some(v) => v.checked_mul(4),
        None => {
            assert(rows * cols * 4 > usize::MAX) by (nonlinear_arith)
                requires
                    rows * cols > usize::MAX,
            ;
            None
        },
    }
}

/// The sizes of a `matmul` launch: each matrix must fit in its buffer, and
/// `m, k, n` are passed as 32-bit push constants.
pub open spec fn matmul_push(
    m: usize,
    k: usize,
    n: usize,
    a_len: usize,
    b_len: usize,
    c_len: usize,
) -> Result<(u32, u32, u32), Error> {
    if matrix_bytes(m, k) is None {
        Err(Error::Argument("matmul A byte size overflow"))
    } else if matrix_bytes(k, n) is None {
        Err(Error::Argument("matmul B byte size overflow"))
    } else if matrix_bytes(m, n) is None {
        Err(Error::Argument("matmul C byte size overflow"))
    } else if matrix_bytes(m, k).unwrap() > a_len {
        Err(
            Error::BufferTooSmall {
                what: "matmul buffer A",
                need: matrix_bytes(m, k).unwrap(),
                have: a_len,
            },
        )
    } else if matrix_bytes(k, n).unwrap() > b_len {
        Err(
            Error::BufferTooSmall {
                what: "matmul buffer B",
                need: matrix_bytes(k, n).unwrap(),
                have: b_len,
            },
        )
    } else if matrix_bytes(m, n).unwrap() > c_len {
        Err(
            Error::BufferTooSmall {
                what: "matmul buffer C",
                need: matrix_bytes(m, n).unwrap(),
                have: c_len,
            },
        )
    } else if m > u32::MAX {
        Err(Error::TooLargeForU32("matmul m"))
    } else if k > u32::MAX {
        Err(Error::TooLargeForU32("matmul k"))
    } else if n > u32::MAX {
        Err(Error::TooLargeForU32("matmul n"))
    } else {
        Ok((m as u32, k as u32, n as u32))
    }
}

/// Check the buffer lengths of a `matmul` launch and give its push constants.
pub fn matmul_push_constants(
    m: usize,
    k: usize,
    n: usize,
    a_len: usize,
    b_len: usize,
    c_len: usize,
) -> (r: Result<(u32, u32, u32), Error>)
    ensures
        r == matmul_push(m, k, n, a_len, b_len, c_len),
{
    let a_bytes = match checked_matrix_bytes(m, k) {
        Some(v) => v,
        None => return Err(Error::Argument("matmul A byte size overflow")),
    };
    let b_bytes = match checked_matrix_bytes(k, n) {
        Some(v) => v,
        None => return Err(Error::Argument("matmul B byte size overflow")),
    };
    let c_bytes = match checked_matrix_bytes(m, n) {
        Some(v) => v,
        None => return Err(Error::Argument("matmul C byte size overflow")),
    };
    if a_bytes > a_len {
        return Err(Error::BufferTooSmall { what: "matmul buffer A", need: a_bytes, have: a_len });
    }
    if b_bytes > b_len {
        return Err(Error::BufferTooSmall { what: "matmul buffer B", need: b_bytes, have: b_len });
    }
    if c_bytes > c_len {
        return Err(Error::BufferTooSmall { what: "matmul buffer C", need: c_bytes, have: c_len });
    }
    if m > 0xffff_ffff {
        return Err(Error::TooLargeForU32("matmul m"));
    }
    if k > 0xffff_ffff {
        return Err(Error::TooLargeForU32("matmul k"));
    }
    if n > 0xffff_ffff {
        return Err(Error::TooLargeForU32("matmul n"));
    }
    Ok((m as u32, k as u32, n as u32))
}

/// The `raid6_xor_parity` argument contract: `data` and `parity` pointers and
/// `num_disks, block_words` sizes. `data` holds `num_disks` blocks of
/// `block_words` words back to back; `parity` holds one block.
pub open spec fn raid6_contract(args: Seq<KernelArg>) -> Result<
    (DevicePtr, DevicePtr, usize, usize),
    Error,
> {
    if args.len() != 4 {
        Err(
            Error::Argument("raid6_xor_parity expects 4 args: data, parity, num_disks, block_words"),
        )
    } else if arg_ptr(args[0]) is None {
        Err(Error::Argument("arg0 (data) must be pointer"))
    } else if arg_ptr(args[1]) is None {
        Err(Error::Argument("arg1 (parity) must be pointer"))
    } else if arg_size(args[2]) is None {
        Err(Error::Argument("arg2 (num_disks) must be usize/u32"))
    } else if arg_size(args[3]) is None {
        Err(Error::Argument("arg3 (block_words) must be usize/u32"))
    } else {
        Ok(
            (
                arg_ptr(args[0]).unwrap(),
                arg_ptr(args[1]).unwrap(),
                arg_size(args[2]).unwrap(),
                arg_size(args[3]).unwrap(),
            ),
        )
    }
}

/// Check a `raid6_xor_parity` launch's arguments against its contract.
pub fn raid6_xor_parity_args(args: &[KernelArg]) -> (r: Result<
    (DevicePtr, DevicePtr, usize, usize),
    Error,
>)
    ensures
        r == raid6_contract(args@),
{
    if args.len() != 4 {
        return Err(
            Error::Argument("raid6_xor_parity expects 4 args: data, parity, num_disks, block_words"),
        );
    }
    let data = match args[0].as_ptr() {
        Some(p) => p,
        None => return Err(Error::Argument("arg0 (data) must be pointer")),
    };
    let parity = match args[1].as_ptr() {
        Some(p) => p,
        None => return Err(Error::Argument("arg1 (parity) must be pointer")),
    };
    let num_disks = match args[2].as_usize() {
        Some(v) => v,
        None => return Err(Error::Argument("arg2 (num_disks) must be usize/u32")),
    };
    let block_words = match args[3].as_usize() {
        Some(v) => v,
        None => return Err(Error::Argument("arg3 (block_words) must be usize/u32")),
    };
    Ok((data, parity, num_disks, block_words))
}

/// The sizes of a `raid6_xor_parity` launch: the data blocks and the parity
/// block must fit in their buffers, and both counts are passed as 32-bit push
/// constants.
pub open spec fn raid6_push(
    num_disks: usize,
    block_words: usize,
    data_len: usize,
    parity_len: usize,
) -> Result<(u32, u32), Error> {
    if matrix_bytes(num_disks, block_words) is None {
        Err(Error::Argument("raid6_xor_parity data byte size overflow"))
    } else if block_words * 4 > usize::MAX {
        Err(Error::Argument("raid6_xor_parity parity byte size overflow"))
    } else if matrix_bytes(num_disks, block_words).unwrap() > data_len {
        Err(
            Error::BufferTooSmall {
                what: "raid6_xor_parity data buffer",
                need: matrix_bytes(num_disks, block_words).unwrap(),
                have: data_len,
            },
        )
    } else if block_words * 4 > parity_len {
        Err(
            Error::BufferTooSmall {
                what: "raid6_xor_parity parity buffer",
                need: (block_words * 4) as usize,
                have: parity_len,
            },
        )
    } else if num_disks > u32::MAX {
        Err(Error::TooLargeForU32("raid6_xor_parity num_disks"))
    } else if block_words > u32::MAX {
        Err(Error::TooLargeForU32("raid6_xor_parity block_words"))
    } else {
        Ok((num_disks as u32, block_words as u32))
    }
}

/// Check the buffer lengths of a `raid6_xor_parity` launch and give its push
/// constants.
pub fn raid6_xor_parity_push_constants(
    num_disks: usize,
    block_words: usize,
    data_len: usize,
    parity_len: usize,
) -> (r: Result<(u32, u32), Error>)
    ensures
        r == raid6_push(num_disks, block_words, data_len, parity_len),
{
    let data_bytes = match checked_matrix_bytes(num_disks, block_words) {
        Some(v) => v,
        None => return Err(Error::Argument("raid6_xor_parity data byte size overflow")),
    };
    let parity_bytes = match block_words.checked_mul(4) {
        Some(v) => v,
        None => return Err(Error::Argument("raid6_xor_parity parity byte size overflow")),
    };
    if data_bytes > data_len {
        return Err(
            Error::BufferTooSmall {
                what: "raid6_xor_parity data buffer",
                need: data_bytes,
                have: data_len,
            },
        );
    }
    if parity_bytes > parity_len {
        return Err(
            Error::BufferTooSmall {
                what: "raid6_xor_parity parity buffer",
                need: parity_bytes,
                have: parity_len,
            },
        );
    }
    if num_disks > 0xffff_ffff {
        return Err(Error::TooLargeForU32("raid6_xor_parity num_disks"));
    }
    if block_words > 0xffff_ffff {
        return Err(Error::TooLargeForU32("raid6_xor_parity block_words"));
    }
    Ok((num_disks as u32, block_words as u32))
}

/// `ash::vk::QueueFlags::contains(COMPUTE)` on a raw flag word: ash defines
/// `COMPUTE` as bit 1 and tests `self & other == other`.
#[verifier::external_body]
fn queue_flags_compute(flags: u32) -> (r: bool)
    ensures
        r == (flags & 2u32 == 2u32),
{
    ash::vk::QueueFlags::from_raw(flags).contains(ash::vk::QueueFlags::COMPUTE)
}

/// The first queue family from index `i` on whose flags include compute.
pub open spec fn compute_family_from(families: Seq<u32>, i: int) -> Option<int>
    decreases families.len() - i,
{
    if i < 0 || i >= families.len() {
        None
    } else if families[i] & 2u32 == 2u32 {
        Some(i)
    } else {
        compute_family_from(families, i + 1)
    }
}

/// The first device from index `d` on that has a compute queue family, with
/// the first such family.
pub open spec fn compute_device_from(devices: Seq<Seq<u32>>, d: int) -> Option<(int, int)>
    decreases devices.len() - d,
{
    if d < 0 || d >= devices.len() {
        None
    } else {
        match compute_family_from(devices[d], 0) {
            Some(f) => Some((d, f)),
            None => compute_device_from(devices, d + 1),
        }
    }
}

/// The queue-family flag words of each enumerated device, as plain sequences.
pub open spec fn family_flags(devices: Seq<Vec<u32>>) -> Seq<Seq<u32>> {
    devices.map_values(|v: Vec<u32>| v@)
}

fn first_compute_family(families: &Vec<u32>) -> (r: Option<u32>)
    requires
        families.len() <= u32::MAX,
    ensures
        r == match compute_family_from(families@, 0) {
            Some(f) => Some(f as u32),
            None => None::<u32>,
        },
{
    let mut i: usize = 0;
    while i < families.len()
        invariant
            i <= families.len() <= u32::MAX,
            compute_family_from(families@, 0) == compute_family_from(families@, i as int),
        decreases families.len() - i,
    {
        if queue_flags_compute(families[i]) {
            return Some(i as u32);
        }
        i = i + 1;
    }
    None
}

/// The device to run on: the first enumerated device (each given by the raw
/// `VkQueueFlags` of its queue families) that has a compute queue family,
/// with the index of its first such family.
pub fn select_compute_queue(devices: &[Vec<u32>]) -> (r: Option<(usize, u32)>)
    requires
        forall|d: int| 0 <= d < devices@.len() ==> #[trigger] devices@[d].len() <= u32::MAX,
    ensures
        r == match compute_device_from(family_flags(devices@), 0) {
            Some((d, f)) => Some((d as usize, f as u32)),
            None => None::<(usize, u32)>,
        },
{
    let mut d: usize = 0;
    while d < devices.len()
        invariant
            d <= devices.len(),
            forall|j: int| 0 <= j < devices@.len() ==> #[trigger] devices@[j].len() <= u32::MAX,
            compute_device_from(family_flags(devices@), 0) == compute_device_from(
                family_flags(devices@),
                d as int,
            ),
        decreases devices.len() - d,
    {
        assert(family_flags(devices@)[d as int] == devices@[d as int]@);
        match first_compute_family(&devices[d]) {
            Some(f) => {
                return Some((d, f));
            },
            None => {},
        }
        d = d + 1;
    }
    None
}

proof fn lemma_compute_family_from(families: Seq<u32>, i: int)
    requires
        0 <= i,
    ensures
        compute_family_from(families, i) matches Some(f) ==> i <= f < families.len()
            && families[f] & 2u32 == 2u32 && forall|j: int| i <= j < f ==> families[j] & 2u32 != 2u32,
        compute_family_from(families, i) is None ==> forall|j: int|
            i <= j < families.len() ==> families[j] & 2u32 != 2u32,
    decreases families.len() - i,
{
    if i < families.len() && families[i] & 2u32 != 2u32 {
        lemma_compute_family_from(families, i + 1);
    }
}

proof fn lemma_compute_device_from(devices: Seq<Seq<u32>>, d: int)
    requires
        0 <= d,
    ensures
        compute_device_from(devices, d) matches Some((k, f)) ==> {
            &&& d <= k < devices.len()
            &&& 0 <= f < devices[k].len()
            &&& devices[k][f] & 2u32 == 2u32
            &&& forall|g: int| 0 <= g < f ==> devices[k][g] & 2u32 != 2u32
            &&& forall|j: int, g: int|
                d <= j < k && 0 <= g < devices[j].len() ==> devices[j][g] & 2u32 != 2u32
        },
        compute_device_from(devices, d) is None ==> forall|j: int, g: int|
            d <= j < devices.len() && 0 <= g < devices[j].len() ==> devices[j][g] & 2u32 != 2u32,
    decreases devices.len() - d,
{
    if d < devices.len() {
        lemma_compute_family_from(devices[d], 0);
        if compute_family_from(devices[d], 0) is None {
            lemma_compute_device_from(devices, d + 1);
        }
    }
}

/// The device chosen to run on has a compute queue family, and the family
/// chosen is its first one; no device enumerated before it has any. When none
/// is chosen, no enumerated device has a compute queue family.
pub proof fn law_compute_queue_choice(devices: Seq<Seq<u32>>)
    ensures
        compute_device_from(devices, 0) matches Some((k, f)) ==> {
            &&& 0 <= k < devices.len()
            &&& 0 <= f < devices[k].len()
            &&& devices[k][f] & 2u32 == 2u32
            &&& forall|g: int| 0 <= g < f ==> devices[k][g] & 2u32 != 2u32
            &&& forall|j: int, g: int|
                0 <= j < k && 0 <= g < devices[j].len() ==> devices[j][g] & 2u32 != 2u32
        },
        compute_device_from(devices, 0) is None ==> forall|j: int, g: int|
            0 <= j < devices.len() && 0 <= g < devices[j].len() ==> devices[j][g] & 2u32 != 2u32,
{
    lemma_compute_device_from(devices, 0);
}

} // verus!
