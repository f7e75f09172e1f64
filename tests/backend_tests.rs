use worker::backend::{
    BackendCapabilities, BackendConfig, BackendFactory, BackendHealth, BackendRegistry, BackendType, CpuBackendConfig,
    MockConfig, OpenAiConfig, VulkanBackendConfig,
};
use worker::types::TaskType;

fn mock_caps() -> BackendCapabilities {
    BackendCapabilities {
        name: "mock".to_string(),
        supported_tasks: vec![TaskType::TextCompletion, TaskType::Embeddings, TaskType::Classification],
        supports_training: false,
        supports_streaming: true,
        max_context_length: 4096,
        max_batch_size: 8,
        gpu_available: false,
        gpu_device: None,
    }
}

#[test]
fn test_cpu_config_from_backend_config() {
    let config = BackendConfig {
        num_threads: Some(4),
        context_size: 8192,
        batch_size: 256,
        gpu_layers: 0,
        use_mmap: false,
        use_mlock: true,
        seed: Some(42),
        openai: None,
    };

    let cpu_config: CpuBackendConfig = config.into();

    assert_eq!(cpu_config.num_threads, 4);
    assert_eq!(cpu_config.context_size, 8192);
    assert!(!cpu_config.use_mmap);
    assert!(cpu_config.use_mlock);
}

#[test]
fn cpu_config_without_thread_count_is_auto() {
    let cpu_config: CpuBackendConfig = BackendConfig::default().into();
    assert_eq!(cpu_config.num_threads, 0);
    assert_eq!(cpu_config.batch_size, 512);
    assert_eq!(cpu_config, CpuBackendConfig::default());
}

#[test]
fn openai_test_default_config() {
    let config = OpenAiConfig::default();
    assert_eq!(config.base_url, "http://localhost:11434/v1");
    assert!(config.api_key.is_empty());
    assert_eq!(config.default_model, "llama3");
    assert_eq!(config.timeout_secs, 120);
    assert_eq!(config.max_retries, 2);
}

#[test]
fn test_backend_type_names() {
    assert_eq!(BackendType::Cpu.name(), "cpu");
    assert_eq!(BackendType::Cuda.name(), "cuda");
    assert_eq!(BackendType::Mock.name(), "mock");
}

#[test]
fn test_backend_type_from_str() {
    assert_eq!(BackendType::from_str("cpu"), Some(BackendType::Cpu));
    assert_eq!(BackendType::from_str("CPU"), Some(BackendType::Cpu));
    assert_eq!(BackendType::from_str("mock"), Some(BackendType::Mock));
    assert_eq!(BackendType::from_str("invalid"), None);
}

#[test]
fn backend_type_from_mixed_case_name() {
    assert_eq!(BackendType::from_str("OpenAI"), Some(BackendType::OpenAi));
    assert_eq!(BackendType::from_lower_name("Vulkan"), None);
    assert_eq!(BackendType::from_lower_name("vulkan"), Some(BackendType::Vulkan));
}

#[test]
fn test_backend_availability() {
    assert!(BackendType::Cpu.is_available());
    assert!(BackendType::Mock.is_available());
}

#[test]
fn available_backends_skip_gpu_kinds() {
    let available = BackendFactory::available_backends();
    assert_eq!(
        available,
        vec![BackendType::Cpu, BackendType::OpenAi, BackendType::Mock, BackendType::Crawler]
    );
    assert_eq!(BackendFactory::detect_best_backend(), BackendType::Cpu);
    assert_eq!(BackendType::all().len(), 7);
}

#[test]
fn test_backend_health_default() {
    let health = BackendHealth::default();
    assert!(health.operational);
    assert!(!health.model_loaded);
}

#[test]
fn test_backend_capabilities_default() {
    let caps = BackendCapabilities::default();
    assert_eq!(caps.name, "unknown");
    assert!(!caps.supports_training);
    assert!(!caps.gpu_available);
}

#[test]
fn test_backend_config_default() {
    let config = BackendConfig::default();
    assert!(config.num_threads.is_none());
    assert_eq!(config.context_size, 4096);
    assert!(config.use_mmap);
}

#[test]
fn other_backend_config_defaults() {
    let mock = MockConfig::default();
    assert_eq!(mock.token_latency_ms, 10);
    assert_eq!(mock.embedding_dims, 384);
    let vulkan = VulkanBackendConfig::default();
    assert_eq!(vulkan.context_size, 4096);
    assert_eq!(vulkan.batch_size, 512);
    assert!(vulkan.n_gpu_layers.is_none());
}

#[test]
fn test_registry_new() {
    let registry = BackendRegistry::new();
    assert!(registry.registered_backends().is_empty());
}

#[test]
fn test_registry_register() {
    let mut registry = BackendRegistry::new();
    registry.register(BackendType::Mock, mock_caps());

    assert_eq!(registry.registered_backends(), vec![BackendType::Mock]);
}

#[test]
fn test_registry_default_backend() {
    let mut registry = BackendRegistry::new();
    registry.register(BackendType::Mock, mock_caps());

    let default = registry.default_backend();
    assert!(default.is_some());
}

#[test]
fn registry_keeps_first_default() {
    let mut registry = BackendRegistry::new();
    registry.register(BackendType::Mock, mock_caps());
    registry.register(BackendType::Cpu, mock_caps());
    assert_eq!(registry.default_backend(), Some(BackendType::Mock));
    registry.set_default(BackendType::Cpu);
    assert_eq!(registry.default_backend(), Some(BackendType::Cpu));
}

#[test]
fn test_registry_best_backend_for_task() {
    let mut registry = BackendRegistry::new();
    registry.register(BackendType::Mock, mock_caps());

    let result = registry.best_backend_for_task(TaskType::TextCompletion);
    assert!(result.is_some());

    let backend_type = result.unwrap();
    assert_eq!(backend_type, BackendType::Mock);
}

#[test]
fn selection_prefers_priority_order() {
    let mut registry = BackendRegistry::new();
    registry.register(BackendType::Mock, mock_caps());
    registry.register(BackendType::Cpu, mock_caps());
    registry.register(BackendType::OpenAi, BackendCapabilities::default());
    assert_eq!(registry.best_backend_for_task(TaskType::TextCompletion), Some(BackendType::OpenAi));
    assert_eq!(registry.best_backend_for_task(TaskType::Embeddings), Some(BackendType::Cpu));
    assert_eq!(registry.best_backend_for_task(TaskType::WebCrawl), None);
}

#[test]
fn test_registry_unregister() {
    let mut registry = BackendRegistry::new();
    registry.register(BackendType::Mock, mock_caps());

    assert!(!registry.registered_backends().is_empty());

    registry.unregister(BackendType::Mock);

    assert!(registry.registered_backends().is_empty());
    assert_eq!(registry.default_backend(), None);
}

#[test]
fn unregister_default_passes_to_first_registered() {
    let mut registry = BackendRegistry::new();
    registry.register(BackendType::Mock, mock_caps());
    registry.register(BackendType::OpenAi, mock_caps());
    registry.register(BackendType::Cpu, mock_caps());
    registry.unregister(BackendType::Mock);
    assert_eq!(registry.default_backend(), Some(BackendType::Cpu));
}
