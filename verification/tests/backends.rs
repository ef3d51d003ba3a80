use opencuda::autotune::default_probe_shapes;
use opencuda::device::{GpuDevice, LaunchConfig};
use opencuda::directx_mock::DirectXMockDevice;
use opencuda::ir::IrModule;
use opencuda::kernel::{CompiledKernel, KernelArg};
use opencuda::memory::alloc_buffer;
use opencuda::mock::MockDevice;
use opencuda::simd::{dot_i8, dot_i8_scalar};
use opencuda::vulkan_mock::VulkanMockDevice;

fn f32_plus(a: u32, b: u32) -> u32 {
    (f32::from_bits(a) + f32::from_bits(b)).to_bits()
}

fn f32_bytes(v: &[f32]) -> Vec<u8> {
    v.iter().flat_map(|x| x.to_ne_bytes()).collect()
}

fn bytes_f32(b: &[u8]) -> Vec<f32> {
    b.chunks_exact(4).map(|c| f32::from_ne_bytes([c[0], c[1], c[2], c[3]])).collect()
}

#[test]
fn vector_add_roundtrip() {
    let module = IrModule::vector_add_f32();
    let encoded = module.encode();
    let decoded = IrModule::decode(&encoded).unwrap();
    assert_eq!(decoded.name, "vector_add_f32");
    assert_eq!(decoded.entry, "main");
}

#[test]
fn mock_device_records_launches() {
    let mut device = MockDevice::new(0);
    let cfg = LaunchConfig::linear(256, 64);
    let spirv = CompiledKernel::spirv("dummy".to_string(), "main".to_string(), vec![0x03, 0x02, 0x23, 0x07]);
    let buf = device.allocate(16).unwrap();

    device.launch_kernel(&spirv, &cfg, &[KernelArg::Ptr(buf)]).unwrap();

    let launches = device.launches();
    assert_eq!(launches.len(), 1);
    assert_eq!(launches[0].kernel_name, "dummy");
    assert_eq!(launches[0].source_kind, "SpirV");
    assert_eq!(launches[0].arg_count, 1);
}

#[test]
fn native_is_rejected_but_omniir_vector_add_runs() {
    let mut device = VulkanMockDevice::new(0, f32_plus);
    let cfg = LaunchConfig::linear(4, 4);

    let native = CompiledKernel::native("vector_add_f32".to_string());
    assert!(device.launch_kernel(&native, &cfg, &[]).is_err());

    let a = [1.0f32, 2.0, 3.0, 4.0];
    let b = [10.0f32, 20.0, 30.0, 40.0];
    let mut c = vec![0u8; 16];
    let bytes = 4 * std::mem::size_of::<f32>();

    let da = alloc_buffer(&mut device, bytes).unwrap();
    let db = alloc_buffer(&mut device, bytes).unwrap();
    let dc = alloc_buffer(&mut device, bytes).unwrap();
    da.copy_from_host(&mut device, &f32_bytes(&a)).unwrap();
    db.copy_from_host(&mut device, &f32_bytes(&b)).unwrap();

    let module = IrModule::vector_add_f32();
    let kernel = module.to_compiled_omniir();
    device
        .launch_kernel(
            &kernel,
            &cfg,
            &[
                KernelArg::Ptr(da.as_ptr()),
                KernelArg::Ptr(db.as_ptr()),
                KernelArg::Ptr(dc.as_ptr()),
                KernelArg::Usize(4),
            ],
        )
        .unwrap();
    dc.copy_to_host(&device, &mut c).unwrap();

    assert_eq!(bytes_f32(&c), vec![11.0, 22.0, 33.0, 44.0]);
}

#[test]
fn vulkan_mock_rejects_native_kernel() {
    let mut device = VulkanMockDevice::new(0, f32_plus);
    let cfg = LaunchConfig::linear(1, 1);
    let native = CompiledKernel::native("noop".to_string());

    let err = device.launch_kernel(&native, &cfg, &[]).unwrap_err();
    assert!(err.message().contains("Native"));
}

#[test]
fn vulkan_mock_rejects_invalid_spirv() {
    let mut device = VulkanMockDevice::new(0, f32_plus);
    let cfg = LaunchConfig::linear(1, 1);
    let spirv = CompiledKernel::spirv("vector_add".to_string(), "main".to_string(), vec![0, 1, 2, 3]);

    let err = device.launch_kernel(&spirv, &cfg, &[]).unwrap_err();
    assert!(err.message().contains("invalid SPIR-V"));
}

#[test]
fn mock_device_rejects_non_dxil_kernel_source() {
    let mut dev = DirectXMockDevice::new(0, f32_plus);
    let kernel = CompiledKernel::native("noop".to_string());
    let cfg = LaunchConfig::linear(1, 1);
    let err = dev.launch_kernel(&kernel, &cfg, &[]).unwrap_err();
    assert!(err.message().contains("not supported"));
}

#[test]
fn mock_device_rejects_dxil_without_dxbc_magic() {
    let mut dev = DirectXMockDevice::new(0, f32_plus);
    let kernel = CompiledKernel::dxil("vector_add".to_string(), "main".to_string(), vec![0u8; 8]);
    let cfg = LaunchConfig::linear(1, 1);
    let err = dev.launch_kernel(&kernel, &cfg, &[]).unwrap_err();
    assert!(err.message().contains("DXBC"));
}

#[test]
fn mock_device_simulates_vector_add_via_dxil_path() {
    let mut dev = DirectXMockDevice::new(0, f32_plus);
    assert!(dev.supports_dxil());

    let n = 4usize;
    let a = alloc_buffer(&mut dev, n * 4).unwrap();
    let b = alloc_buffer(&mut dev, n * 4).unwrap();
    let c = alloc_buffer(&mut dev, n * 4).unwrap();

    let av = [1.0f32, 2.0, 3.0, 4.0];
    let bv = [10.0f32, 20.0, 30.0, 40.0];
    a.copy_from_host(&mut dev, &f32_bytes(&av)).unwrap();
    b.copy_from_host(&mut dev, &f32_bytes(&bv)).unwrap();

    let mut dxil = b"DXBC".to_vec();
    dxil.extend_from_slice(&[0u8; 4]);
    let kernel = CompiledKernel::dxil("vector_add".to_string(), "main".to_string(), dxil);
    let cfg = LaunchConfig::linear(n as u32, 1);
    dev.launch_kernel(
        &kernel,
        &cfg,
        &[KernelArg::Ptr(a.as_ptr()), KernelArg::Ptr(b.as_ptr()), KernelArg::Ptr(c.as_ptr()), KernelArg::Usize(n)],
    )
    .unwrap();

    let mut out = vec![0u8; n * 4];
    c.copy_to_host(&dev, &mut out).unwrap();
    assert_eq!(bytes_f32(&out), vec![11.0, 22.0, 33.0, 44.0]);
}

#[test]
fn default_probe_shapes_are_gpt2_like() {
    let shapes = default_probe_shapes();
    assert!(!shapes.is_empty());
    assert!(shapes.iter().all(|(m, k, n)| *m > 0 && *k > 0 && *n > 0));
}

#[test]
fn dot_i8_matches_scalar_reference_exactly() {
    for len in [0usize, 1, 31, 32, 33, 63, 64, 65, 500] {
        let a: Vec<u8> = (0..len).map(|i| ((i * 37 + 11) % 256) as u8).collect();
        let b: Vec<i8> = (0..len).map(|i| (((i * 53 + 7) % 256) as i32 - 128) as i8).collect();
        assert_eq!(dot_i8(&a, &b), dot_i8_scalar(&a, &b), "len={len}");
    }
}

#[test]
fn select_gemm_path_prefers_directx_when_device_only_supports_dxil() {
    let device = DirectXMockDevice::new(0, f32_plus);
    assert!(device.supports_dxil());
    assert!(!device.supports_spirv());
    assert_eq!(
        opencuda::autotune::select_gemm_path(&device),
        opencuda::autotune::GemmPath::DirectXGeneric
    );
}
