use worker::gpu::{GpuApi, GpuInfo, GpuVendor};
use worker::plugins::{PluginInfo, PluginManagerConfig, PluginRegistry, TargetArch, TargetOs};

fn make_amd_gpu() -> GpuInfo {
    GpuInfo {
        id: 0,
        name: "AMD RX 7900".to_string(),
        vendor: GpuVendor::Amd,
        vendor_id: 0x1002,
        device_id: 0x1234,
        total_memory_mb: 24576,
        driver_version: "23.10".to_string(),
        api_support: vec![GpuApi::Vulkan, GpuApi::Rocm],
        vulkan_version: Some("1.3".to_string()),
        is_discrete: true,
        compute_capable: true,
    }
}

fn make_nvidia_gpu() -> GpuInfo {
    GpuInfo {
        id: 0,
        name: "RTX 4090".to_string(),
        vendor: GpuVendor::Nvidia,
        vendor_id: 0x10DE,
        device_id: 0x5678,
        total_memory_mb: 24576,
        driver_version: "537.42".to_string(),
        api_support: vec![GpuApi::Vulkan, GpuApi::Cuda],
        vulkan_version: Some("1.3".to_string()),
        is_discrete: true,
        compute_capable: true,
    }
}

#[test]
fn test_platform_extension() {
    let ext = PluginInfo::platform_extension(TargetOs::Linux);
    assert!(!ext.is_empty());
    assert!(ext.starts_with('.'));
}

#[test]
fn platform_extensions_per_os() {
    assert_eq!(PluginInfo::platform_extension(TargetOs::Windows), ".dll");
    assert_eq!(PluginInfo::platform_extension(TargetOs::Macos), ".dylib");
    assert_eq!(PluginInfo::platform_extension(TargetOs::Linux), ".so");
}

#[test]
fn test_plugin_info_url_substitution() {
    let info = PluginInfo {
        name: "test-plugin".to_string(),
        version: "1.0.0".to_string(),
        description: "Test".to_string(),
        supported_vendors: vec![GpuVendor::Amd],
        download_url: "https://example.com/{version}/{platform}-{arch}.{ext}".to_string(),
        checksum: "abc123".to_string(),
        file_name: "test_plugin".to_string(),
        min_worker_version: "0.1.0".to_string(),
        api_version: 1,
    };

    let url = info.get_download_url(TargetOs::Linux, TargetArch::X86_64);
    assert!(url.contains("1.0.0"));
    assert!(!url.contains("{version}"));
    assert!(!url.contains("{platform}"));
    assert_eq!(url, "https://example.com/1.0.0/linux-x86_64.so");
    assert_eq!(info.full_file_name(TargetOs::Windows), "test_plugin.dll");
}

#[test]
fn test_vendor_support() {
    let info = PluginInfo {
        name: "vulkan".to_string(),
        version: "1.0.0".to_string(),
        description: "Vulkan backend".to_string(),
        supported_vendors: vec![GpuVendor::Amd, GpuVendor::Nvidia],
        download_url: "".to_string(),
        checksum: "".to_string(),
        file_name: "vulkan_backend".to_string(),
        min_worker_version: "0.1.0".to_string(),
        api_version: 1,
    };

    assert!(info.supports_vendor(GpuVendor::Amd));
    assert!(info.supports_vendor(GpuVendor::Nvidia));
    assert!(!info.supports_vendor(GpuVendor::Intel));
}

#[test]
fn test_registry_default() {
    let registry = PluginRegistry::new();
    assert!(!registry.plugins().is_empty());
}

#[test]
fn test_find_by_name() {
    let registry = PluginRegistry::new();
    let vulkan = registry.find_by_name("vulkan-backend");
    assert!(vulkan.is_some());
    assert_eq!(vulkan.unwrap().name, "vulkan-backend");
    assert!(registry.find_by_name("metal-backend").is_none());
}

#[test]
fn test_find_for_vendor() {
    let registry = PluginRegistry::new();

    let amd_plugins = registry.find_for_vendor(GpuVendor::Amd);
    assert!(amd_plugins.iter().any(|p| p.name == "vulkan-backend"));
    assert!(amd_plugins.iter().any(|p| p.name == "rocm-backend"));

    let nvidia_plugins = registry.find_for_vendor(GpuVendor::Nvidia);
    assert!(nvidia_plugins.iter().any(|p| p.name == "vulkan-backend"));
    assert!(nvidia_plugins.iter().any(|p| p.name == "cuda-backend"));
}

#[test]
fn test_find_best_for_gpu_amd() {
    let registry = PluginRegistry::new();
    let gpu = make_amd_gpu();

    let best = registry.find_best_for_gpu(&gpu);
    assert!(best.is_some());
    assert_eq!(best.unwrap().name, "rocm-backend");
}

#[test]
fn test_find_best_for_gpu_nvidia() {
    let registry = PluginRegistry::new();
    let gpu = make_nvidia_gpu();

    let best = registry.find_best_for_gpu(&gpu);
    assert!(best.is_some());
    assert_eq!(best.unwrap().name, "cuda-backend");
}

#[test]
fn find_best_for_other_vendors() {
    let registry = PluginRegistry::new();
    let mut gpu = make_amd_gpu();
    gpu.vendor = GpuVendor::Intel;
    assert_eq!(registry.find_best_for_gpu(&gpu).unwrap().name, "vulkan-backend");
    gpu.vendor = GpuVendor::Apple;
    assert!(registry.find_best_for_gpu(&gpu).is_none());
}

#[test]
fn test_custom_base_url() {
    let registry = PluginRegistry::with_base_url("https://custom.example.com");
    assert_eq!(registry.base_url(), "https://custom.example.com");

    let vulkan = registry.find_by_name("vulkan-backend").unwrap();
    assert!(vulkan.download_url.contains("custom.example.com"));
}

#[test]
fn update_checksums_sets_named_plugins() {
    let mut registry = PluginRegistry::new();
    registry.update_checksums(&[
        ("cuda-backend".to_string(), "abc".to_string()),
        ("nope".to_string(), "zzz".to_string()),
    ]);
    assert_eq!(registry.find_by_name("cuda-backend").unwrap().checksum, "abc");
    assert_eq!(registry.find_by_name("rocm-backend").unwrap().checksum, "");
    let extra = registry.find_by_name("rocm-backend").unwrap().clone();
    registry.add_plugin(extra);
    assert_eq!(registry.plugins().len(), 4);
}

#[test]
fn manager_test_config_default() {
    let config = PluginManagerConfig::default();
    assert!(config.auto_download);
    assert!(config.verify_checksums);
    assert!(config.plugin_dir.contains("ai4all"));
}
