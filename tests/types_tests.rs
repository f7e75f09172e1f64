use worker::error::ErrorCode;
use worker::protocol::{ProtocolVersion, TaskPriority, WorkerStatus};
use worker::types::{FinishReason, ModelFormat, QuantizationType, TaskType, TokenUsage};

#[test]
fn test_task_type_display() {
    assert_eq!(TaskType::TextCompletion.to_string(), "text_completion");
    assert_eq!(TaskType::Embeddings.to_string(), "embeddings");
}

#[test]
fn test_task_type_requires_training() {
    assert!(!TaskType::TextCompletion.requires_training());
    assert!(!TaskType::Embeddings.requires_training());
    assert!(TaskType::TrainingBatch.requires_training());
}

#[test]
fn task_type_vram_estimates() {
    assert_eq!(TaskType::TextCompletion.estimated_vram_mb(), 4096);
    assert_eq!(TaskType::TrainingBatch.estimated_vram_mb(), 8192);
    assert_eq!(TaskType::WebCrawl.estimated_vram_mb(), 0);
    assert_eq!(TaskType::all().len(), 8);
}

#[test]
fn test_token_usage() {
    let usage = TokenUsage::new(100, 50);
    assert_eq!(usage.prompt_tokens, 100);
    assert_eq!(usage.completion_tokens, 50);
    assert_eq!(usage.total_tokens, 150);
}

#[test]
fn finish_reason_names() {
    assert_eq!(FinishReason::default(), FinishReason::Stop);
    assert_eq!(FinishReason::ContentFilter.as_str(), "content_filter");
}

#[test]
fn test_model_format_extension() {
    assert_eq!(ModelFormat::Gguf.extension(), "gguf");
    assert_eq!(ModelFormat::SafeTensors.extension(), "safetensors");
}

#[test]
fn test_model_format_from_path() {
    let path = "/models/llama-7b.gguf";
    assert_eq!(ModelFormat::from_path(path), Some(ModelFormat::Gguf));

    let path = "/models/model.safetensors";
    assert_eq!(ModelFormat::from_path(path), Some(ModelFormat::SafeTensors));
}

#[test]
fn model_format_other_paths() {
    assert_eq!(ModelFormat::from_path("/models/weights.BIN"), Some(ModelFormat::Ggml));
    assert_eq!(ModelFormat::from_path("/models/model.pth"), Some(ModelFormat::Pytorch));
    assert_eq!(ModelFormat::from_path("/models/README"), None);
    assert_eq!(ModelFormat::from_path("/models/notes.txt"), None);
}

#[test]
fn test_quantization_from_str() {
    assert_eq!(QuantizationType::from_str("Q4_K_M"), QuantizationType::Q4_K_M);
    assert_eq!(QuantizationType::from_str("q8_0"), QuantizationType::Q8_0);
    assert_eq!(QuantizationType::from_str("unknown"), QuantizationType::Unknown);
}

#[test]
fn test_error_code_format() {
    assert_eq!(ErrorCode::ConfigNotFound.as_str(), "E100");
    assert_eq!(ErrorCode::ConnectionFailed.as_str(), "E300");
    assert_eq!(ErrorCode::InternalError.as_str(), "E900");
}

#[test]
fn error_test_error_exit_codes() {
    assert_eq!(ErrorCode::ConfigNotFound.exit_code(), 10);
    assert_eq!(ErrorCode::IoRead.exit_code(), 20);
    assert_eq!(ErrorCode::ConnectionFailed.exit_code(), 30);
    assert_eq!(ErrorCode::ExecutionFailed.exit_code(), 50);
    assert_eq!(ErrorCode::InternalError.exit_code(), 90);
}

#[test]
fn error_codes_of_every_family() {
    assert_eq!(ErrorCode::ProtocolVersion.exit_code(), 40);
    assert_eq!(ErrorCode::ModelNotFound.exit_code(), 60);
    assert_eq!(ErrorCode::ResourceMemory.exit_code(), 70);
    assert_eq!(ErrorCode::VulkanError.exit_code(), 80);
    assert_eq!(ErrorCode::ExecutionTimeout.as_str(), "E501");
    assert_eq!(ErrorCode::PluginChecksumMismatch.code(), 823);
}

#[test]
fn test_version_display() {
    let v = ProtocolVersion::new(1, 2, 3);
    assert_eq!(v.to_string(), "1.2.3");
}

#[test]
fn test_version_compatibility() {
    let v1_0 = ProtocolVersion::new(1, 0, 0);
    let v1_1 = ProtocolVersion::new(1, 1, 0);
    let v2_0 = ProtocolVersion::new(2, 0, 0);

    assert!(v1_1.is_compatible_with(&v1_0));
    assert!(!v1_0.is_compatible_with(&v1_1));
    assert!(!v2_0.is_compatible_with(&v1_0));
    assert!(!v1_0.is_compatible_with(&v2_0));
}

#[test]
fn test_version_exact_match() {
    let v1 = ProtocolVersion::new(1, 2, 3);
    let v2 = ProtocolVersion::new(1, 2, 3);
    let v3 = ProtocolVersion::new(1, 2, 4);

    assert!(v1.is_exact_match(&v2));
    assert!(!v1.is_exact_match(&v3));
}

#[test]
fn wire_names_of_status_and_priority() {
    assert_eq!(WorkerStatus::Ready.as_str(), "READY");
    assert_eq!(WorkerStatus::Busy.as_str(), "BUSY");
    assert_eq!(TaskPriority::default(), TaskPriority::Normal);
    assert_eq!(TaskPriority::Critical.as_str(), "CRITICAL");
    assert_eq!(ProtocolVersion::default(), ProtocolVersion::new(1, 0, 0));
}
