use worker::gpu::{detect_gpus, is_vulkan_available, quick_gpu_check, select_best_gpu, select_by_vendor_priority, GpuApi, GpuInfo, GpuVendor};

fn gpu(name: &str, vendor: GpuVendor, mem: u64, discrete: bool, apis: Vec<GpuApi>) -> GpuInfo {
    GpuInfo {
        id: 0,
        name: name.to_string(),
        vendor,
        vendor_id: vendor.vendor_id(),
        device_id: 0x1234,
        total_memory_mb: mem,
        driver_version: "1.0".to_string(),
        api_support: apis,
        vulkan_version: Some("1.3".to_string()),
        is_discrete: discrete,
        compute_capable: true,
    }
}

#[test]
fn test_quick_gpu_check() {
    let result = quick_gpu_check();
    assert!(!result.is_empty());
}

#[test]
fn test_detect_gpus_no_panic() {
    let _ = detect_gpus();
}

#[test]
fn test_vendor_from_id() {
    assert_eq!(GpuVendor::from_vendor_id(0x1002), GpuVendor::Amd);
    assert_eq!(GpuVendor::from_vendor_id(0x10DE), GpuVendor::Nvidia);
    assert_eq!(GpuVendor::from_vendor_id(0x8086), GpuVendor::Intel);
    assert_eq!(GpuVendor::from_vendor_id(0x106B), GpuVendor::Apple);
    assert_eq!(GpuVendor::from_vendor_id(0xFFFF), GpuVendor::Unknown(0xFFFF));
}

#[test]
fn vendor_id_round_trip_and_names() {
    assert_eq!(GpuVendor::Unknown(7).vendor_id(), 7);
    assert_eq!(GpuVendor::Nvidia.vendor_id(), 0x10DE);
    assert_eq!(GpuVendor::Amd.name(), "AMD");
    assert!(!GpuVendor::Unknown(1).is_known());
    assert!(GpuVendor::Intel.is_known());
    assert_eq!(GpuApi::DirectX12.name(), "DirectX 12");
}

#[test]
fn test_vendor_priority() {
    assert!(GpuVendor::Amd.priority() > GpuVendor::Nvidia.priority());
    assert!(GpuVendor::Nvidia.priority() > GpuVendor::Intel.priority());
    assert!(GpuVendor::Intel.priority() > GpuVendor::Unknown(0).priority());
}

#[test]
fn test_api_availability() {
    assert!(GpuApi::Cuda.is_available_for_vendor(GpuVendor::Nvidia));
    assert!(!GpuApi::Cuda.is_available_for_vendor(GpuVendor::Amd));
    assert!(GpuApi::Rocm.is_available_for_vendor(GpuVendor::Amd));
    assert!(!GpuApi::Rocm.is_available_for_vendor(GpuVendor::Nvidia));
    assert!(GpuApi::Vulkan.is_available_for_vendor(GpuVendor::Amd));
    assert!(GpuApi::Vulkan.is_available_for_vendor(GpuVendor::Nvidia));
}

#[test]
fn test_select_best_gpu() {
    let gpus = vec![
        GpuInfo {
            id: 0,
            name: "Intel UHD".to_string(),
            vendor: GpuVendor::Intel,
            vendor_id: 0x8086,
            device_id: 0x1234,
            total_memory_mb: 2048,
            driver_version: "1.0".to_string(),
            api_support: vec![GpuApi::Vulkan],
            vulkan_version: Some("1.2".to_string()),
            is_discrete: false,
            compute_capable: true,
        },
        GpuInfo {
            id: 1,
            name: "AMD RX 7900".to_string(),
            vendor: GpuVendor::Amd,
            vendor_id: 0x1002,
            device_id: 0x5678,
            total_memory_mb: 24576,
            driver_version: "23.10".to_string(),
            api_support: vec![GpuApi::Vulkan, GpuApi::Rocm],
            vulkan_version: Some("1.3".to_string()),
            is_discrete: true,
            compute_capable: true,
        },
    ];

    let best = select_best_gpu(&gpus).unwrap();
    assert_eq!(best.vendor, GpuVendor::Amd);
}

#[test]
fn select_best_gpu_skips_non_compute_and_ties_go_last() {
    let mut a = gpu("first", GpuVendor::Nvidia, 8192, true, vec![]);
    a.compute_capable = false;
    let b = gpu("second", GpuVendor::Intel, 4096, false, vec![]);
    let c = gpu("third", GpuVendor::Intel, 4096, false, vec![]);
    let gpus = vec![a, b, c];
    assert_eq!(select_best_gpu(&gpus).unwrap().name, "third");
    assert!(select_best_gpu(&[]).is_none());
}

#[test]
fn select_by_vendor_priority_follows_the_list() {
    let gpus = vec![
        gpu("amd small", GpuVendor::Amd, 8192, true, vec![]),
        gpu("nvidia", GpuVendor::Nvidia, 24576, true, vec![]),
        gpu("amd big", GpuVendor::Amd, 16384, true, vec![]),
    ];
    let chosen = select_by_vendor_priority(&gpus, &[GpuVendor::Intel, GpuVendor::Amd]).unwrap();
    assert_eq!(chosen.name, "amd big");
    let fallback = select_by_vendor_priority(&gpus, &[GpuVendor::Apple]).unwrap();
    assert_eq!(fallback.name, "amd big");
}

#[test]
fn estimated_tokens_per_sec_scales() {
    let g = gpu("n", GpuVendor::Nvidia, 24576, true, vec![]);
    assert_eq!(g.estimated_tokens_per_sec("Q4_K_M"), 330);
    let small = gpu("i", GpuVendor::Intel, 2048, false, vec![]);
    assert_eq!(small.estimated_tokens_per_sec("F16"), 9);
    assert_eq!(small.estimated_tokens_per_sec("Q8_0"), 14);
}

#[test]
fn supports_api_checks_the_list() {
    let g = gpu("n", GpuVendor::Nvidia, 24576, true, vec![GpuApi::Vulkan, GpuApi::Cuda]);
    assert!(g.supports_api(GpuApi::Cuda));
    assert!(!g.supports_api(GpuApi::Rocm));
}

#[test]
fn test_gpu_summary() {
    let gpu = GpuInfo {
        id: 0,
        name: "RX 7900 XTX".to_string(),
        vendor: GpuVendor::Amd,
        vendor_id: 0x1002,
        device_id: 0x1234,
        total_memory_mb: 24576,
        driver_version: "23.10".to_string(),
        api_support: vec![GpuApi::Vulkan, GpuApi::Rocm],
        vulkan_version: Some("1.3".to_string()),
        is_discrete: true,
        compute_capable: true,
    };

    let summary = gpu.summary();
    assert!(summary.contains("AMD"));
    assert!(summary.contains("RX 7900 XTX"));
    assert!(summary.contains("24576"));
    assert_eq!(summary, "AMD RX 7900 XTX (24576MB) - Vulkan, ROCm");
}

#[test]
fn test_vulkan_availability() {
    let _ = is_vulkan_available();
}
