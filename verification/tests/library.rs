use opencuda::autotune::{
    gemm_path_for, offload_plan, offload_reason, policy_from_value, probe_shapes, select_gemm_path, smallest_probe_shape, GemmPath, OffloadPolicy,
    OffloadReason,
};
use opencuda::device::{DeviceInfo, GpuDevice, GpuVendor, LaunchConfig};
use opencuda::directx_mock::{validate_dxil, DirectXMockDevice};
use opencuda::error::{Error, GpuError};
use opencuda::ir::IrModule;
use opencuda::kernel::{thread_ctx_at, CompiledKernel, KernelArg, KernelSource};
use opencuda::memory::{alloc_buffer, DevicePtr};
use opencuda::mock::MockDevice;
use opencuda::multidev::{partition_layers, transfer_between_devices, DevicePartition};
use opencuda::registry::DeviceRegistry;
use opencuda::rng::SplitMix64;
use opencuda::simd::{dot_i8, CpuFeatures};
use opencuda::tokenizer::ByteTokenizer;
use opencuda::vulkan::{
    bytes_to_u32_words, device_type_str, estimate_device_local_memory, find_host_visible_memory_type,
    find_memory_type, matmul_args, matmul_push_constants, raid6_xor_parity_args, raid6_xor_parity_push_constants,
    route_kernel, select_compute_queue, vector_add_args, vector_add_push_constant, vendor_from_id, MemoryHeap,
    VulkanDiagnostics, VulkanKernel,
};
use opencuda::gemm::{check_attention_args, check_gemm_lengths, check_quantize_args, sgemm_route, SgemmRoute};
use opencuda::llm::{
    begin_speculative, check_mla_rank, check_speculative_args, check_token_id, round_size, speculative_round,
    validate_deepseek_config, ConfigFault, DeepseekSettings, RoundCommit, SpeculativeStats,
};
use opencuda::vulkan_mock::{compile_omniir_to_spirv_fixture, validate_spirv, VulkanMockDevice};

fn f32_plus(a: u32, b: u32) -> u32 {
    (f32::from_bits(a) + f32::from_bits(b)).to_bits()
}

// ---- device memory

#[test]
fn fresh_allocation_reads_as_zeros() {
    let mut dev = MockDevice::new(0);
    let p = dev.allocate(8).unwrap();
    let mut out = vec![0xAAu8; 8];
    dev.memcpy_d2h(&mut out, p).unwrap();
    assert_eq!(out, vec![0u8; 8]);
}

#[test]
fn read_after_write_gives_back_the_written_bytes_and_keeps_the_rest() {
    let mut dev = MockDevice::new(0);
    let p = dev.allocate(6).unwrap();
    dev.memcpy_h2d(p, &[1, 2, 3]).unwrap();
    let mut out = vec![0u8; 6];
    dev.memcpy_d2h(&mut out, p).unwrap();
    assert_eq!(out, vec![1, 2, 3, 0, 0, 0]);
}

#[test]
fn a_write_leaves_other_allocations_alone() {
    let mut dev = MockDevice::new(0);
    let p = dev.allocate(4).unwrap();
    let q = dev.allocate(4).unwrap();
    dev.memcpy_h2d(q, &[9, 9, 9, 9]).unwrap();
    dev.memcpy_h2d(p, &[1, 2, 3, 4]).unwrap();
    let mut out = vec![0u8; 4];
    dev.memcpy_d2h(&mut out, q).unwrap();
    assert_eq!(out, vec![9, 9, 9, 9]);
}

#[test]
fn device_to_device_copy_then_read() {
    let mut dev = MockDevice::new(0);
    let p = dev.allocate(4).unwrap();
    let q = dev.allocate(4).unwrap();
    dev.memcpy_h2d(p, &[5, 6, 7, 8]).unwrap();
    dev.memcpy_d2d(q, p, 3).unwrap();
    let mut out = vec![0u8; 4];
    dev.memcpy_d2h(&mut out, q).unwrap();
    assert_eq!(out, vec![5, 6, 7, 0]);
}

#[test]
fn freed_pointer_is_refused_afterwards() {
    let mut dev = MockDevice::new(0);
    let p = dev.allocate(4).unwrap();
    dev.free(p).unwrap();
    let mut out = vec![0u8; 4];
    assert_eq!(dev.memcpy_d2h(&mut out, p), Err(Error::Gpu(GpuError::InvalidPtr(p))));
    assert_eq!(dev.free(p), Err(Error::Gpu(GpuError::InvalidPtr(p))));
}

#[test]
fn handles_start_at_one_and_zero_bytes_are_refused() {
    let mut dev = MockDevice::new(3);
    assert_eq!(dev.allocate(0), Err(Error::Gpu(GpuError::OutOfMemory(0))));
    let p = dev.allocate(1).unwrap();
    assert_eq!(p, DevicePtr::new(1, 3));
    assert!(!p.is_null());
    assert!(DevicePtr::new(0, 3).is_null());
}

#[test]
fn oversized_copies_are_refused() {
    let mut dev = MockDevice::new(0);
    let p = dev.allocate(2).unwrap();
    assert_eq!(dev.memcpy_h2d(p, &[1, 2, 3]), Err(Error::Gpu(GpuError::OutOfMemory(3))));
    let mut out = vec![0u8; 3];
    assert_eq!(dev.memcpy_d2h(&mut out, p), Err(Error::Gpu(GpuError::InvalidPtr(p))));
}

#[test]
fn pointer_of_another_device_is_refused() {
    let mut dev = MockDevice::new(0);
    let _ = dev.allocate(4).unwrap();
    let foreign = DevicePtr::new(1, 7);
    assert_eq!(dev.memcpy_h2d(foreign, &[1]), Err(Error::Gpu(GpuError::InvalidPtr(foreign))));
}

#[test]
fn device_buffer_round_trip() {
    let mut dev = VulkanMockDevice::new(0, f32_plus);
    let buf = alloc_buffer(&mut dev, 4).unwrap();
    assert_eq!(buf.len(), 4);
    assert!(!buf.is_empty());
    buf.copy_from_host(&mut dev, &[4, 3, 2, 1]).unwrap();
    let mut out = vec![0u8; 4];
    buf.copy_to_host(&dev, &mut out).unwrap();
    assert_eq!(out, vec![4, 3, 2, 1]);
    let p = buf.as_ptr();
    buf.free(&mut dev).unwrap();
    assert_eq!(dev.free(p), Err(Error::Gpu(GpuError::InvalidPtr(p))));
}

// ---- launch configuration and thread positions

#[test]
fn linear_launch_covers_every_element() {
    let cfg = LaunchConfig::linear(10, 4);
    assert_eq!(cfg.grid, (3, 1, 1));
    assert_eq!(cfg.block, (4, 1, 1));
    assert_eq!(cfg.total_threads(), 12);
    let zero_block = LaunchConfig::linear(5, 0);
    assert_eq!(zero_block.grid, (5, 1, 1));
}

#[test]
fn grid2d_launch_covers_every_cell() {
    let cfg = LaunchConfig::grid2d(5, 7, 2, 3);
    assert_eq!(cfg.grid, (4, 2, 1));
    assert_eq!(cfg.block, (2, 3, 1));
    assert_eq!(cfg.total_threads(), 48);
}

#[test]
fn thread_positions_give_global_ids() {
    let cfg = LaunchConfig::grid2d(4, 4, 2, 2);
    let ctx = thread_ctx_at(&cfg, 3, 2);
    assert_eq!(ctx.block_idx, (1, 1, 0));
    assert_eq!(ctx.thread_idx, (0, 1, 0));
    assert_eq!(ctx.global_id_x(), 2);
    assert_eq!(ctx.global_id_y(), 3);
}

// ---- errors

#[test]
fn cuda_codes_of_each_failure() {
    assert_eq!(GpuError::OutOfMemory(1).to_cuda_code(), 2);
    assert_eq!(GpuError::InvalidPtr(DevicePtr::new(1, 0)).to_cuda_code(), 1);
    assert_eq!(GpuError::NoDevice.to_cuda_code(), 100);
    assert_eq!(GpuError::LaunchFailed("x".to_string()).to_cuda_code(), 8);
    assert_eq!(GpuError::UnsupportedKernel("Native").to_cuda_code(), 8);
    assert_eq!(GpuError::DeviceOutOfRange { requested: 3, available: 1 }.to_cuda_code(), 1);
}

#[test]
fn failure_texts() {
    assert_eq!(GpuError::OutOfMemory(42).message(), "out of memory: requested 42 bytes");
    assert_eq!(
        GpuError::InvalidPtr(DevicePtr::new(5, 0)).message(),
        "invalid device pointer: DevicePtr { addr: 5, device_id: 0 }"
    );
    assert_eq!(GpuError::NoDevice.message(), "no device found");
    assert_eq!(GpuError::LaunchFailed("boom".to_string()).message(), "kernel launch failed: boom");
    assert_eq!(
        GpuError::DeviceOutOfRange { requested: 3, available: 1 }.message(),
        "device id 3 out of range (have 1 devices)"
    );
    assert_eq!(Error::NoMemoryType(6).message(), "no compatible Vulkan memory type for flags 0x6");
    assert_eq!(Error::NoMemoryType(0x1f).message(), "no compatible Vulkan memory type for flags 0x1f");
    assert_eq!(
        Error::BufferTooSmall { what: "matmul buffer A", need: 24, have: 23 }.message(),
        "matmul buffer A too small: need 24 bytes, have 23"
    );
    assert_eq!(
        Error::BuffersTooSmall { what: "vector_add buffer", need: 16 }.message(),
        "vector_add buffer too small: need 16 bytes"
    );
    assert_eq!(Error::TooLargeForU32("vector_add n").message(), "vector_add n does not fit in u32 push constant");
    assert_eq!(Error::UnsupportedIrModule("x".to_string()).message(), "unsupported OmniIR module `x` in v0.2");
    assert_eq!(Error::NoDevicesToPartition.message(), "no devices to partition across");
}

// ---- IR

#[test]
fn ir_decode_of_encode_gives_the_module_back() {
    let module = IrModule::vector_add_f32();
    let decoded = IrModule::decode(&module.encode()).unwrap();
    assert_eq!(decoded, module);
}

#[test]
fn ir_decode_refusals() {
    assert_eq!(IrModule::decode(b"OCIR"), Err(Error::InvalidIr("missing OCIR2 magic")));
    assert_eq!(IrModule::decode(b"OCIR2\0abc"), Err(Error::InvalidIr("missing name separator")));
    assert_eq!(
        IrModule::decode(b"OCIR2\0other\0main"),
        Err(Error::UnsupportedIrModule("other".to_string()))
    );
    assert_eq!(IrModule::decode(b"XCIR2\0vector_add_f32\0main").unwrap_err().message(), "invalid OmniIR: missing OCIR2 magic");
}

#[test]
fn ir_decode_keeps_the_entry() {
    let decoded = IrModule::decode(b"OCIR2\0vector_add_f32\0kernel_main").unwrap();
    assert_eq!(decoded.entry, "kernel_main");
    assert_eq!(decoded.ops, IrModule::vector_add_f32().ops);
}

#[test]
fn omniir_kernel_carries_the_encoding() {
    let module = IrModule::vector_add_f32();
    let k = module.to_compiled_omniir();
    assert_eq!(k.name, "vector_add_f32");
    assert_eq!(k.entry, "main");
    assert_eq!(k.source, KernelSource::OmniIr(module.encode()));
    assert_eq!(k.source_kind(), "OmniIr");
}

// ---- SPIR-V and DXIL paths

#[test]
fn the_spirv_fixture_is_valid_spirv() {
    let bytes = compile_omniir_to_spirv_fixture(&IrModule::vector_add_f32()).unwrap();
    assert_eq!(bytes, vec![0x03, 0x02, 0x23, 0x07, 0x00, 0x00, 0x02, 0x00]);
    assert_eq!(validate_spirv(&bytes), Ok(()));
    let mut other = IrModule::vector_add_f32();
    other.name = "other".to_string();
    assert_eq!(compile_omniir_to_spirv_fixture(&other), Err(Error::FixtureUnsupported("other".to_string())));
}

#[test]
fn spirv_and_dxil_validation() {
    assert_eq!(validate_spirv(&[3, 2]), Err(Error::InvalidSpirv("buffer is shorter than 4 bytes")));
    assert_eq!(validate_spirv(&[3, 2, 0x23, 0x08]), Err(Error::InvalidSpirv("missing little-endian magic 0x07230203")));
    assert_eq!(validate_dxil(b"DXBC"), Ok(()));
    assert_eq!(validate_dxil(b"DXB"), Err(Error::InvalidDxil("buffer is shorter than 4 bytes")));
    assert!(validate_dxil(b"DXBD").unwrap_err().message().contains("DXBC"));
}

#[test]
fn simulators_refuse_other_kernel_names() {
    let mut dev = VulkanMockDevice::new(0, f32_plus);
    let k = CompiledKernel::spirv("matmul".to_string(), "main".to_string(), vec![3, 2, 0x23, 7]);
    let err = dev.launch_kernel(&k, &LaunchConfig::linear(1, 1), &[]).unwrap_err();
    assert_eq!(err.message(), "VulkanMockDevice only simulates vector_add/vector_add_f32 in v0.3.5; got kernel `matmul`");
    let mut dx = DirectXMockDevice::new(0, f32_plus);
    let k = CompiledKernel::dxil("matmul".to_string(), "main".to_string(), b"DXBC".to_vec());
    let err = dx.launch_kernel(&k, &LaunchConfig::linear(1, 1), &[]).unwrap_err();
    assert_eq!(err.message(), "DirectXMockDevice only simulates vector_add/vector_add_f32; got kernel `matmul`");
}

#[test]
fn simulator_checks_the_vector_add_contract() {
    let mut dev = VulkanMockDevice::new(0, f32_plus);
    let k = CompiledKernel::spirv("vector_add".to_string(), "main".to_string(), vec![3, 2, 0x23, 7]);
    let cfg = LaunchConfig::linear(1, 1);
    assert_eq!(
        dev.launch_kernel(&k, &cfg, &[]),
        Err(Error::Argument("vector_add expects 4 args: a, b, c, n"))
    );
    let a = dev.allocate(4).unwrap();
    let args = [KernelArg::Ptr(a), KernelArg::U32(1), KernelArg::Ptr(a), KernelArg::Usize(1)];
    assert_eq!(dev.launch_kernel(&k, &cfg, &args), Err(Error::Argument("arg1 must be pointer")));
    let args = [KernelArg::Ptr(a), KernelArg::Ptr(a), KernelArg::Ptr(a), KernelArg::Usize(2)];
    assert!(dev.launch_kernel(&k, &cfg, &args).is_err());
}

#[test]
fn mock_device_refuses_unknown_pointer_arguments() {
    let mut dev = MockDevice::new(0);
    let k = CompiledKernel::spirv("dummy".to_string(), "main".to_string(), vec![]);
    let bad = DevicePtr::new(9, 0);
    let r = dev.launch_kernel(&k, &LaunchConfig::linear(1, 1), &[KernelArg::U32(3), KernelArg::Ptr(bad)]);
    assert_eq!(r, Err(Error::Gpu(GpuError::InvalidPtr(bad))));
    assert!(dev.launches().is_empty());
}

// ---- registry and partitioning

fn registry_of(ids: &[usize]) -> DeviceRegistry {
    let mut reg = DeviceRegistry::new();
    for &id in ids {
        reg.register(Box::new(MockDevice::new(id)));
    }
    reg
}

#[test]
fn registry_lookup_and_range() {
    let reg = registry_of(&[0, 1]);
    assert_eq!(reg.len(), 2);
    assert!(!reg.is_empty());
    assert_eq!(reg.get(1).unwrap().info().id, 1);
    assert_eq!(reg.get(2).err(), Some(GpuError::DeviceOutOfRange { requested: 2, available: 2 }));
    assert_eq!(registry_of(&[]).best_for_inference().err(), Some(GpuError::NoDevice));
    assert_eq!(reg.best_for_inference().unwrap().info().id, 1);
}

#[test]
fn registry_filters_by_vendor() {
    let reg = registry_of(&[0, 1, 2]);
    assert_eq!(reg.by_vendor(|v: &GpuVendor| *v == GpuVendor::Unknown).len(), 3);
    assert_eq!(reg.by_vendor(|v: &GpuVendor| *v == GpuVendor::Cpu).len(), 0);
}

#[test]
fn partition_covers_every_layer_in_order() {
    let reg = registry_of(&[0, 1, 2]);
    let parts = partition_layers(reg.all(), 10).unwrap();
    assert_eq!(
        parts,
        vec![
            DevicePartition { device_id: 0, layer_start: 0, layer_end: 3 },
            DevicePartition { device_id: 1, layer_start: 3, layer_end: 6 },
            DevicePartition { device_id: 2, layer_start: 6, layer_end: 10 },
        ]
    );
    assert_eq!(partition_layers(registry_of(&[]).all(), 10), Err(Error::NoDevicesToPartition));
    let reg = registry_of(&[0]);
    assert_eq!(
        transfer_between_devices(&reg.all()[0], &reg.all()[0]),
        Err(Error::NotImplemented("transfer_between_devices: not yet implemented (Phase 3)"))
    );
}

// ---- tokenizer, random numbers, CPU features

#[test]
fn byte_tokenizer_round_trip_and_special_tokens() {
    let ids = ByteTokenizer::encode("héllo");
    assert_eq!(ids, vec![104, 195, 169, 108, 108, 111]);
    assert_eq!(ByteTokenizer::decode(&ids), "héllo");
    assert_eq!(ByteTokenizer::decode(&[ByteTokenizer::BOS, 104, 105, ByteTokenizer::EOS]), "hi");
    assert_eq!(ByteTokenizer::VOCAB_SIZE, 260);
}

#[test]
fn splitmix_first_output_from_seed_zero() {
    let mut rng = SplitMix64::new(0);
    assert_eq!(rng.next_u64(), 0xe220a8397b1dcdaf);
    let mut a = SplitMix64::new(42);
    let mut b = SplitMix64::new(42);
    assert_eq!(a.next_u64(), b.next_u64());
    assert_eq!(a.next_u64(), b.next_u64());
}

#[test]
fn cpu_feature_description() {
    assert_eq!(CpuFeatures::default().describe(), "scalar");
    let f = CpuFeatures { sse2: true, avx2: true, fma: true, avx512f: false, avx512vnni: false, avxvnni: false };
    assert_eq!(f.describe(), "avx2+fma3+sse2");
    assert_eq!(dot_i8(&[1, 2, 255], &[3, -4, 1, 9]), 3 - 8 + 255);
}

// ---- backend selection and offload decisions

#[test]
fn offload_policy_values() {
    assert_eq!(policy_from_value(None), OffloadPolicy::Auto);
    assert_eq!(policy_from_value(Some("  GPU ")), OffloadPolicy::ForceGpu);
    assert_eq!(policy_from_value(Some("1")), OffloadPolicy::ForceGpu);
    assert_eq!(policy_from_value(Some("Off")), OffloadPolicy::ForceCpu);
    assert_eq!(policy_from_value(Some("maybe")), OffloadPolicy::Auto);
    assert_eq!(policy_from_value(Some("")), OffloadPolicy::Auto);
}

#[test]
fn gemm_path_of_simulated_devices() {
    assert_eq!(select_gemm_path(&MockDevice::new(0)), GemmPath::VulkanGeneric);
    assert_eq!(select_gemm_path(&VulkanMockDevice::new(0, f32_plus)), GemmPath::VulkanGeneric);
    assert_eq!(select_gemm_path(&DirectXMockDevice::new(0, f32_plus)), GemmPath::DirectXGeneric);
    let mut reg = DeviceRegistry::new();
    reg.register(Box::new(MockDevice::new(0)));
    assert_eq!(select_gemm_path(&**reg.get(0).unwrap()), GemmPath::VulkanGeneric);
}

#[test]
fn probe_shapes_and_the_cheapest_one() {
    assert_eq!(probe_shapes(&[]), vec![(1, 768, 2304), (1, 768, 3072), (1, 768, 50257)]);
    assert_eq!(probe_shapes(&[(2, 2, 2)]), vec![(2, 2, 2)]);
    assert_eq!(smallest_probe_shape(&[(4, 4, 4), (1, 2, 3), (3, 2, 1), (9, 9, 9)]), Some((1, 2, 3)));
    assert_eq!(smallest_probe_shape(&[]), None);
}

#[test]
fn offload_verdicts() {
    assert_eq!(offload_reason(OffloadPolicy::ForceCpu, true, true), OffloadReason::ForcedCpu);
    assert_eq!(offload_reason(OffloadPolicy::ForceGpu, false, true), OffloadReason::NumericsMismatch);
    assert_eq!(offload_reason(OffloadPolicy::Auto, false, true), OffloadReason::NumericsMismatch);
    assert_eq!(offload_reason(OffloadPolicy::ForceGpu, true, false), OffloadReason::ForcedGpu);
    assert_eq!(offload_reason(OffloadPolicy::Auto, true, true), OffloadReason::Faster);
    assert_eq!(offload_reason(OffloadPolicy::Auto, true, false), OffloadReason::Slower);
    assert!(OffloadReason::Faster.use_gpu());
    assert!(!OffloadReason::NumericsMismatch.use_gpu());
}

// ---- real Vulkan backend decisions

#[test]
fn vulkan_diagnostics_texts() {
    let d = VulkanDiagnostics {
        queue_family_index: 0,
        device_type: 2,
        api_version: (1 << 22) | (3 << 12) | 251,
        driver_version: (1 << 22) | (2 << 12) | 3,
    };
    assert_eq!(d.device_type_str(), "DISCRETE_GPU");
    assert_eq!(d.api_version_str(), "1.3.251");
    assert_eq!(d.driver_version_str(), "1.2.3 (raw=0x00402003)");
    assert_eq!(device_type_str(1), "INTEGRATED_GPU");
    assert_eq!(device_type_str(4), "CPU");
    assert_eq!(device_type_str(77), "OTHER");
}

#[test]
fn vendors_from_pci_ids() {
    assert_eq!(vendor_from_id(0x10DE), GpuVendor::Nvidia { compute_capability: (0, 0) });
    assert_eq!(vendor_from_id(0x1022), GpuVendor::Amd { gfx_version: "unknown".to_string() });
    assert_eq!(vendor_from_id(0x13B5), GpuVendor::Arm { architecture: "unknown".to_string() });
    assert_eq!(vendor_from_id(0x1234), GpuVendor::Unknown);
}

#[test]
fn device_local_memory_adds_up_and_saturates() {
    let heaps = [
        MemoryHeap { size: 100, flags: 1 },
        MemoryHeap { size: 50, flags: 0 },
        MemoryHeap { size: 7, flags: 3 },
    ];
    assert_eq!(estimate_device_local_memory(&heaps), 107);
    let big = [MemoryHeap { size: u64::MAX - 1, flags: 1 }, MemoryHeap { size: 5, flags: 1 }];
    assert_eq!(estimate_device_local_memory(&big), u64::MAX);
    assert_eq!(estimate_device_local_memory(&[]), 0);
}

#[test]
fn memory_type_selection() {
    assert_eq!(find_memory_type(0b110, &[6, 2, 6], 6), Ok(2));
    assert_eq!(find_memory_type(0b011, &[6, 2, 6], 6), Ok(0));
    assert_eq!(find_memory_type(0b010, &[6, 2, 6], 6), Err(Error::NoMemoryType(6)));
    assert_eq!(find_host_visible_memory_type(0b11, &[2, 2]), Ok((0, false)));
    assert_eq!(find_host_visible_memory_type(0b11, &[2, 6]), Ok((1, true)));
    assert_eq!(find_host_visible_memory_type(0b1, &[1]), Err(Error::NoMemoryType(2)));
}

#[test]
fn spirv_words() {
    assert_eq!(bytes_to_u32_words(&[3, 2, 0x23, 7, 1, 0, 0, 0]), Ok(vec![0x07230203, 1]));
    assert_eq!(bytes_to_u32_words(&[1, 2, 3]), Err(Error::SpirvLength(3)));
    assert_eq!(bytes_to_u32_words(&[1, 2, 3]).unwrap_err().message(), "SPIR-V length must be multiple of 4");
}

#[test]
fn compute_queue_selection() {
    assert_eq!(select_compute_queue(&[vec![1], vec![1, 3, 2]]), Some((1, 1)));
    assert_eq!(select_compute_queue(&[vec![1, 4]]), None);
    assert_eq!(select_compute_queue(&[]), None);
}

#[test]
fn kernel_routing() {
    let spirv = |name: &str| CompiledKernel::spirv(name.to_string(), "main".to_string(), vec![3, 2, 0x23, 7]);
    assert_eq!(route_kernel(&spirv("vector_add_f32")), Ok(VulkanKernel::VectorAdd));
    assert_eq!(route_kernel(&spirv("matmul")), Ok(VulkanKernel::Matmul));
    assert_eq!(route_kernel(&spirv("raid6_xor_parity")), Ok(VulkanKernel::Raid6XorParity));
    assert_eq!(route_kernel(&spirv("conv")), Err(Error::KernelNotImplemented("conv".to_string())));
    assert_eq!(
        route_kernel(&CompiledKernel::native("matmul".to_string())),
        Err(Error::Gpu(GpuError::UnsupportedKernel("Native")))
    );
}

#[test]
fn vector_add_contract() {
    let p = DevicePtr::new(1, 0);
    let args = [KernelArg::Ptr(p), KernelArg::Ptr(p), KernelArg::Ptr(p), KernelArg::U32(4)];
    assert_eq!(vector_add_args(&args), Ok((p, p, p, 4)));
    assert_eq!(vector_add_args(&args[..3]), Err(Error::Argument("vector_add expects 4 args: a, b, c, n")));
    let bad = [KernelArg::Ptr(p), KernelArg::Ptr(p), KernelArg::Ptr(p), KernelArg::I32(4)];
    assert_eq!(vector_add_args(&bad), Err(Error::Argument("arg3 must be usize/u32")));
    assert_eq!(vector_add_push_constant(4, 16, 16, 16), Ok(4));
    assert_eq!(
        vector_add_push_constant(4, 16, 16, 15),
        Err(Error::BuffersTooSmall { what: "vector_add buffer", need: 16 })
    );
    assert_eq!(vector_add_push_constant(usize::MAX, 0, 0, 0), Err(Error::Argument("byte size overflow")));
    let n = 1usize << 32;
    assert_eq!(vector_add_push_constant(n, 4 * n, 4 * n, 4 * n), Err(Error::TooLargeForU32("vector_add n")));
}

#[test]
fn matmul_contract() {
    let p = DevicePtr::new(1, 0);
    let args = [
        KernelArg::Ptr(p),
        KernelArg::Ptr(p),
        KernelArg::Ptr(p),
        KernelArg::Usize(2),
        KernelArg::U32(3),
        KernelArg::Usize(4),
    ];
    assert_eq!(matmul_args(&args), Ok((p, p, p, 2, 3, 4)));
    assert_eq!(matmul_args(&args[..5]), Err(Error::Argument("matmul expects 6 args: a, b, c, m, k, n")));
    assert_eq!(matmul_push_constants(2, 3, 4, 24, 48, 32), Ok((2, 3, 4)));
    assert_eq!(
        matmul_push_constants(2, 3, 4, 23, 48, 32),
        Err(Error::BufferTooSmall { what: "matmul buffer A", need: 24, have: 23 })
    );
    assert_eq!(
        matmul_push_constants(2, 3, 4, 24, 48, 31),
        Err(Error::BufferTooSmall { what: "matmul buffer C", need: 32, have: 31 })
    );
    assert_eq!(
        matmul_push_constants(usize::MAX, 2, 1, 0, 0, 0),
        Err(Error::Argument("matmul A byte size overflow"))
    );
}

#[test]
fn raid6_contract() {
    let p = DevicePtr::new(1, 0);
    let args = [KernelArg::Ptr(p), KernelArg::Ptr(p), KernelArg::Usize(3), KernelArg::Usize(4)];
    assert_eq!(raid6_xor_parity_args(&args), Ok((p, p, 3, 4)));
    let bad = [KernelArg::Ptr(p), KernelArg::U32(1), KernelArg::Usize(3), KernelArg::Usize(4)];
    assert_eq!(raid6_xor_parity_args(&bad), Err(Error::Argument("arg1 (parity) must be pointer")));
    assert_eq!(raid6_xor_parity_push_constants(3, 4, 48, 16), Ok((3, 4)));
    assert_eq!(
        raid6_xor_parity_push_constants(3, 4, 48, 15),
        Err(Error::BufferTooSmall { what: "raid6_xor_parity parity buffer", need: 16, have: 15 })
    );
}

#[test]
fn device_info_is_plain_data() {
    let d = MockDevice::new(4);
    let info: &DeviceInfo = d.info();
    assert_eq!(info.id, 4);
    assert_eq!(info.name, "OpenCUDA Mock Device (no GPU, records launches)");
    assert_eq!(info.total_memory, 512 * 1024 * 1024);
}

#[test]
fn lowering_to_native() {
    let k = opencuda::ir::lower_to_native(&IrModule::vector_add_f32()).unwrap();
    assert_eq!(k.name, "vector_add_f32");
    assert_eq!(k.entry, "vector_add_f32");
    assert_eq!(k.source, KernelSource::Native);
    let mut m = IrModule::vector_add_f32();
    m.ops = vec![opencuda::ir::IrOp::VectorAddF32 { a_arg: 1, b_arg: 0, c_arg: 2, n_arg: 3 }];
    assert_eq!(opencuda::ir::lower_to_native(&m).unwrap_err(), Error::NotLowerable);
    m.ops = vec![];
    assert_eq!(opencuda::ir::lower_to_native(&m).unwrap_err(), Error::NotLowerable);
}

#[test]
fn invalid_utf8_in_names_and_tokens() {
    assert_eq!(
        IrModule::decode(b"OCIR2\0\xff\0main"),
        Err(Error::Utf8("invalid utf-8 sequence of 1 bytes from index 0".to_string()))
    );
    assert_eq!(
        IrModule::decode(b"OCIR2\0vector_add_f32\0\xfe"),
        Err(Error::Utf8("invalid utf-8 sequence of 1 bytes from index 0".to_string()))
    );
    assert_eq!(ByteTokenizer::decode(&[0xff, 104]), "\u{FFFD}h");
}

#[test]
fn error_texts_of_the_backends() {
    let e = IrModule::decode(b"OCIR2\0na\xffme\0main").unwrap_err();
    assert_eq!(e.message(), "invalid utf-8 sequence of 1 bytes from index 2");
    assert_eq!(
        Error::FixtureUnsupported("x".to_string()).message(),
        "opencuda-vulkan v0.3.5 only compiles vector_add_f32 OmniIR fixture"
    );
    assert_eq!(Error::NotLowerable.message(), "opencuda-ir v0.2 only lowers canonical vector_add_f32");
    assert_eq!(
        Error::KernelNotImplemented("conv".to_string()).message(),
        "VulkanDevice v0.4.1 only implements vector_add/vector_add_f32, matmul/matmul_f32, and raid6_xor_parity; got `conv`"
    );
    assert_eq!(
        Error::NotImplemented("transfer_between_devices: not yet implemented (Phase 3)").message(),
        "transfer_between_devices: not yet implemented (Phase 3)"
    );
}

#[test]
fn gemm_path_from_plain_values() {
    assert_eq!(gemm_path_for(&GpuVendor::Nvidia { compute_capability: (0, 0) }, true, false), GemmPath::VulkanGeneric);
    assert_eq!(gemm_path_for(&GpuVendor::Nvidia { compute_capability: (0, 0) }, false, false), GemmPath::CuBlas);
    assert_eq!(gemm_path_for(&GpuVendor::Nvidia { compute_capability: (0, 0) }, false, true), GemmPath::DirectXGeneric);
    assert_eq!(gemm_path_for(&GpuVendor::Unknown, false, true), GemmPath::DirectXGeneric);
    assert_eq!(gemm_path_for(&GpuVendor::Cpu, false, true), GemmPath::CpuNaive);
    let boxed: Box<dyn GpuDevice> = Box::new(DirectXMockDevice::new(0, f32_plus));
    assert_eq!(select_gemm_path(&*boxed), GemmPath::DirectXGeneric);
}

#[test]
fn offload_plans() {
    assert_eq!(offload_plan(OffloadPolicy::ForceCpu, false, "d"), Ok(false));
    assert_eq!(offload_plan(OffloadPolicy::ForceCpu, true, "d"), Ok(false));
    assert_eq!(offload_plan(OffloadPolicy::Auto, true, "d"), Ok(true));
    assert_eq!(offload_plan(OffloadPolicy::ForceGpu, true, "d"), Ok(true));
    let e = offload_plan(OffloadPolicy::Auto, false, "Mock").unwrap_err();
    assert_eq!(e, Error::DxilNotSupported("Mock".to_string()));
    assert_eq!(e.message(), "decide_dxil_offload: device 'Mock' does not support DXIL kernels");
}

#[test]
fn gemm_operand_lengths() {
    assert_eq!(check_gemm_lengths(2, 3, 4, 6, 12, 8), Ok(()));
    let e = check_gemm_lengths(2, 3, 4, 5, 12, 8).unwrap_err();
    assert_eq!(e, Error::GemmLength { operand: "a", dims: "m*k", len: 5, expected: 6 });
    assert_eq!(e.message(), "sgemm: a.len()=5 != m*k=6");
    assert_eq!(check_gemm_lengths(2, 3, 4, 6, 11, 8).unwrap_err().message(), "sgemm: b.len()=11 != k*n=12");
    assert_eq!(check_gemm_lengths(2, 3, 4, 6, 12, 9).unwrap_err().message(), "sgemm: c.len()=9 != m*n=8");
}

#[test]
fn token_ids_in_range() {
    assert_eq!(check_token_id(5, 10), Ok(5));
    let e = check_token_id(10, 10).unwrap_err();
    assert_eq!(e, Error::TokenOutOfRange { token: 10, vocab: 10 });
    assert_eq!(e.message(), "open-cuda-llm: token id 10 out of vocab range 10");
}

#[test]
fn speculative_argument_checks() {
    assert_eq!(check_speculative_args(3, 4, 50257, 50257, false), Ok(()));
    assert_eq!(
        check_speculative_args(0, 0, 1, 2, true).unwrap_err().message(),
        "open-cuda-llm: generate_speculative: prompt_ids must not be empty"
    );
    assert_eq!(
        check_speculative_args(1, 0, 1, 2, true).unwrap_err().message(),
        "open-cuda-llm: generate_speculative: draft_k must be >= 1"
    );
    assert_eq!(
        check_speculative_args(1, 1, 1, 2, true).unwrap_err().message(),
        "open-cuda-llm: generate_speculative: target vocab_size=1 != draft vocab_size=2"
    );
    assert_eq!(
        check_speculative_args(1, 1, 2, 2, true).unwrap_err().message(),
        "open-cuda-llm: generate_speculative: MLA-compressed models are not supported yet (KvCacheHead::truncate only handles full-precision caches)"
    );
}

#[test]
fn speculative_round_sizes() {
    assert_eq!(round_size(4, 16, 1024, 10), 4);
    assert_eq!(round_size(4, 2, 1024, 10), 2);
    assert_eq!(round_size(4, 16, 12, 10), 2);
    assert_eq!(round_size(4, 16, 10, 10), 1);
    assert_eq!(round_size(4, 16, 5, 10), 1);
}

#[test]
fn speculative_rounds_emit_the_target_picks() {
    let mut out = vec![7u32];
    let mut stats = SpeculativeStats::default();
    // Two agreed draft tokens, then a disagreement: the target's pick follows them.
    let m = speculative_round(&mut out, &mut stats, &[1, 2, 3, 4], &[1, 2, 9, 8, 5], 16);
    assert_eq!(m, 2);
    assert_eq!(out, vec![7, 1, 2, 9]);
    assert_eq!(stats, SpeculativeStats { proposed: 4, accepted: 2 });
    // Everything agreed: the target's pick after the last draft token is appended.
    let m = speculative_round(&mut out, &mut stats, &[5, 6], &[5, 6, 3], 16);
    assert_eq!(m, 2);
    assert_eq!(out, vec![7, 1, 2, 9, 5, 6, 3]);
    assert_eq!(stats, SpeculativeStats { proposed: 6, accepted: 4 });
    // The cap cuts the round.
    let m = speculative_round(&mut out, &mut stats, &[4, 4, 4], &[4, 4, 4, 4], 9);
    assert_eq!(m, 3);
    assert_eq!(out, vec![7, 1, 2, 9, 5, 6, 3, 4, 4]);
    assert!(stats.accepted <= stats.proposed);
}

#[test]
fn speculative_generation_driver() {
    // No tokens asked for: no round runs, nothing is emitted or counted.
    let s = begin_speculative(3, 4, 10, 10, false, 0, 1024).unwrap();
    assert_eq!(s.next_round(), None);
    assert_eq!(s.finish(), (vec![], SpeculativeStats { proposed: 0, accepted: 0 }));
    assert!(begin_speculative(0, 4, 10, 10, false, 5, 1024).is_err());

    let mut s = begin_speculative(3, 4, 10, 10, false, 5, 1024).unwrap();
    assert_eq!(s.pos, 3);
    assert_eq!(s.next_round(), Some(4));
    let c = s.commit_round(&[1, 2, 3, 4], &[1, 2, 9, 8, 5]);
    assert_eq!(c, RoundCommit { accepted: 2, correction: 9, target_keep: 5, draft_keep: 3 });
    assert_eq!(s.pos, 6);
    assert_eq!(s.output, vec![1, 2, 9]);
    assert_eq!(s.next_round(), Some(2));
    let c = s.commit_round(&[7, 7], &[7, 7, 6]);
    assert_eq!(c, RoundCommit { accepted: 2, correction: 6, target_keep: 8, draft_keep: 6 });
    assert_eq!(s.next_round(), None);
    assert_eq!(s.finish(), (vec![1, 2, 9, 7, 7], SpeculativeStats { proposed: 6, accepted: 4 }));
}

#[test]
fn offload_reason_texts() {
    assert_eq!(OffloadReason::ForcedCpu.fixed_text(), Some("OPEN_CUDA_GEMM_OFFLOAD=cpu (measurement skipped)"));
    assert_eq!(
        OffloadReason::NumericsMismatch.fixed_text(),
        Some("GPU result did not match the CPU reference within 1e-3; staying on CPU")
    );
    assert_eq!(OffloadReason::ForcedGpu.fixed_text(), Some("OPEN_CUDA_GEMM_OFFLOAD=gpu (measurement ignored)"));
    assert_eq!(OffloadReason::Faster.fixed_text(), None);
    assert_eq!(OffloadReason::Slower.fixed_text(), None);
}

#[test]
fn tokenizer_replaces_invalid_bytes() {
    assert!(ByteTokenizer::decode(&[0xc3]).contains('\u{FFFD}'));
}

#[test]
fn sgemm_routes() {
    assert_eq!(sgemm_route(GemmPath::CpuNaive, false, 2, 3, 0), Ok(SgemmRoute::Naive));
    assert_eq!(sgemm_route(GemmPath::VulkanGeneric, true, 2, 3, 6), Ok(SgemmRoute::Vulkan));
    assert_eq!(
        sgemm_route(GemmPath::VulkanGeneric, true, 2, 3, 5).unwrap_err().message(),
        "sgemm: c.len()=5 != m*n=6"
    );
    assert!(sgemm_route(GemmPath::VulkanGeneric, false, 2, 3, 6).unwrap_err().message().contains("no spirv bytes"));
    assert_eq!(
        sgemm_route(GemmPath::CuBlas, true, 2, 3, 6).unwrap_err().message(),
        "sgemm: CuBlas backend not yet implemented (Phase 3)"
    );
}

#[test]
fn attention_and_quantize_checks() {
    assert_eq!(check_attention_args(6, 6, 6, 2, 3, 1), Ok(()));
    assert_eq!(
        check_attention_args(6, 5, 6, 2, 3, 1).unwrap_err().message(),
        "flash_attention: k.len()=5 != seq_len*head_dim=6"
    );
    assert_eq!(
        check_attention_args(6, 6, 6, 2, 3, 0).unwrap_err().message(),
        "flash_attention: block_size must be > 0"
    );
    assert_eq!(check_quantize_args(4, 2), Ok(()));
    assert_eq!(check_quantize_args(0, 0).unwrap_err().message(), "quantize: input must not be empty");
    assert_eq!(check_quantize_args(4, 0).unwrap_err().message(), "quantize: group_size must be > 0");
    assert_eq!(check_mla_rank(4, 8, "enable_mla_kv_compression"), Ok(()));
    assert_eq!(
        check_mla_rank(8, 8, "enable_mla_kv_compression").unwrap_err().message(),
        "open-cuda-llm: enable_mla_kv_compression: d_c=8 must satisfy 0 < d_c < head_dim=8"
    );
}

fn deepseek_ok() -> DeepseekSettings {
    DeepseekSettings {
        num_heads: 16,
        qk_rope_head_dim: 64,
        q_lora_rank: None,
        kv_lora_rank: 512,
        num_layers: 27,
        first_k_dense_replace: 1,
        scoring_func: "softmax".to_string(),
        topk_method: "greedy".to_string(),
        n_routed_experts: 64,
        num_experts_per_tok: 6,
        moe_intermediate_size: 1408,
        n_group: 1,
        topk_group: 1,
    }
}

#[test]
fn deepseek_config_checks() {
    assert_eq!(validate_deepseek_config(&deepseek_ok()), Ok(()));
    let mut c = deepseek_ok();
    c.qk_rope_head_dim = 63;
    assert_eq!(validate_deepseek_config(&c), Err(Error::DeepseekConfig(ConfigFault::OddRopeDim(63))));
    assert_eq!(
        validate_deepseek_config(&c).unwrap_err().message(),
        "open-cuda-llm: qk_rope_head_dim (63) must be even (rotate_half RoPE pairs dimensions)"
    );
    let mut c = deepseek_ok();
    c.scoring_func = "relu".to_string();
    assert_eq!(
        validate_deepseek_config(&c).unwrap_err().message(),
        "open-cuda-llm: DeepseekModel::load: scoring_func 'relu' is not supported \u{2014} only \"softmax\" and \"sigmoid\" are implemented"
    );
    let mut c = deepseek_ok();
    c.num_experts_per_tok = 65;
    assert_eq!(
        validate_deepseek_config(&c),
        Err(Error::DeepseekConfig(ConfigFault::ExpertsPerTok { per_tok: 65, routed: 64 }))
    );
    // No MoE layers: the expert settings are not checked.
    c.first_k_dense_replace = 27;
    assert_eq!(validate_deepseek_config(&c), Ok(()));
    let mut c = deepseek_ok();
    c.n_group = 5;
    c.topk_group = 1;
    assert_eq!(
        validate_deepseek_config(&c).unwrap_err().message(),
        "open-cuda-llm: n_routed_experts (64) must be a positive multiple of n_group (5)"
    );
}
