use worker::backend::{BackendCapabilities, BackendRegistry, BackendType};
use worker::error::ErrorCode;
use worker::executor::{SubmitError, TaskError, TaskResult};
use worker::groups::{group_from_message, GroupPurpose, GroupRole};
use worker::health::{HealthMonitor, SystemInfo};
use worker::protocol::{GroupAssignedMessage, GroupMemberMessage, GroupPurposeMessage, ShutdownMessage, TaskPriority, WorkerStatus};
use worker::supervisor::{
    http_completion, is_other_worker, polled_assignment, priority_from_wire, refusal_result, registration_message,
    role_from_wire, status_after_result, HttpPolledTasks, ResultRoute,
};
use worker::tracker::TaskMetrics;
use worker::types::{FinishReason, TaskType};
use worker::version::BuildInfo;

fn metrics(tokens: Option<u32>, exec: u64) -> TaskMetrics {
    TaskMetrics {
        queue_time_ms: 0,
        execution_time_ms: exec,
        total_time_ms: exec,
        tokens_processed: tokens,
        tokens_per_second: None,
        peak_memory_mb: None,
        peak_gpu_memory_mb: None,
    }
}

#[test]
fn http_polled_results_go_back_over_http_once() {
    let mut set = HttpPolledTasks::new();
    set.insert("h1");
    set.insert("h1");
    assert!(set.contains("h1"));
    assert_eq!(set.route_result("h1"), ResultRoute::Http);
    assert_eq!(set.route_result("h1"), ResultRoute::Session);
    assert_eq!(set.route_result("t1"), ResultRoute::Session);
    assert!(!set.contains("h1"));
}

#[test]
fn ready_after_the_last_task() {
    assert_eq!(status_after_result(0, 0), Some(WorkerStatus::Ready));
    assert_eq!(status_after_result(1, 0), None);
    assert_eq!(status_after_result(0, 2), None);
}

#[test]
fn completion_body_of_an_http_task() {
    let result: TaskResult<String> = TaskResult {
        task_id: "h1".to_string(),
        worker_id: "w".to_string(),
        success: true,
        output: Some("x".to_string()),
        error: None,
        metrics: metrics(Some(7), 120),
    };
    let c = http_completion(&result, "w9");
    assert_eq!(c.worker_id, "w9");
    assert_eq!(c.task_id, "h1");
    assert_eq!(c.output, "x");
    assert_eq!(c.finish_reason, FinishReason::Stop);
    assert_eq!(c.token_usage.prompt_tokens, 3);
    assert_eq!(c.token_usage.completion_tokens, 4);
    assert_eq!(c.token_usage.total_tokens, 7);
    assert_eq!(c.execution_time_ms, 120);
    assert!(c.error.is_none());

    let failed: TaskResult<String> = TaskResult {
        task_id: "h2".to_string(),
        worker_id: "w".to_string(),
        success: false,
        output: None,
        error: Some(TaskError { code: "E500".to_string(), message: "boom".to_string(), retryable: false, details: None }),
        metrics: metrics(None, 0),
    };
    let c = http_completion(&failed, "w9");
    assert_eq!(c.finish_reason, FinishReason::Error);
    assert_eq!(c.output, "");
    assert_eq!(c.error, Some("boom".to_string()));
}

#[test]
fn refused_submission_result() {
    let r: TaskResult<String> = refusal_result("t3".to_string(), "w".to_string(), SubmitError::CapacityExhausted);
    assert!(!r.success);
    let e = r.error.unwrap();
    assert_eq!(e.code, ErrorCode::ResourceMemory.as_str());
    assert!(!e.retryable);
    let r: TaskResult<String> = refusal_result("t4".to_string(), "w".to_string(), SubmitError::NotSupported);
    assert_eq!(r.error.unwrap().code, "E902");
}

#[test]
fn polled_task_values() {
    assert_eq!(priority_from_wire(Some("CRITICAL")), TaskPriority::Critical);
    assert_eq!(priority_from_wire(Some("LOW")), TaskPriority::Low);
    assert_eq!(priority_from_wire(Some("urgent")), TaskPriority::Normal);
    assert_eq!(priority_from_wire(None), TaskPriority::Normal);
    let a = polled_assignment("h1", None, TaskPriority::High);
    assert_eq!(a.model_id, "default");
    assert_eq!(a.timeout_secs, 300);
    assert_eq!(a.task_type, TaskType::TextCompletion);
    assert_eq!(registration_message("acct", "2026-01-01T00:00:00.000Z"), "AI4ALL:v1:acct:2026-01-01T00:00:00.000Z");
    assert_eq!(role_from_wire("coordinator"), GroupRole::Coordinator);
    assert_eq!(role_from_wire("member"), GroupRole::Member);
    assert!(is_other_worker("a", "b"));
    assert!(!is_other_worker("a", "a"));
}

#[test]
fn advertised_capabilities_aggregate_backends() {
    let mut registry = BackendRegistry::new();
    let empty = registry.worker_capabilities(4, 16384, "0.1.0".to_string());
    assert!(empty.supported_tasks.is_empty());
    assert_eq!(empty.max_context_length, 4096);
    let mut gpu = BackendCapabilities::default();
    gpu.supported_tasks = vec![TaskType::Embeddings, TaskType::TextCompletion];
    gpu.gpu_available = true;
    gpu.gpu_device = Some("RX 7900".to_string());
    gpu.max_context_length = 8192;
    registry.register(BackendType::Vulkan, gpu);
    registry.register(BackendType::Mock, BackendCapabilities::default());
    let caps = registry.worker_capabilities(4, 16384, "0.1.0".to_string());
    assert_eq!(caps.supported_tasks, vec![TaskType::TextCompletion, TaskType::Embeddings]);
    assert!(caps.gpu_available);
    assert_eq!(caps.gpu_device, Some("RX 7900".to_string()));
    assert_eq!(caps.max_context_length, 8192);
    assert_eq!(caps.available_memory_mb, 16384);
}

#[test]
fn assigned_group_becomes_a_work_group() {
    let msg = GroupAssignedMessage {
        group_id: "g1".to_string(),
        purpose: GroupPurposeMessage::ModelShard { model_id: "m".to_string(), total_shards: 2 },
        members: vec![
            GroupMemberMessage { worker_id: "a".to_string(), role: "coordinator".to_string(), shard_index: Some(0), pipeline_stage: None },
            GroupMemberMessage { worker_id: "b".to_string(), role: "member".to_string(), shard_index: Some(1), pipeline_stage: Some(3) },
        ],
    };
    let g = group_from_message(msg, 42);
    assert_eq!(g.group_id, "g1");
    assert_eq!(g.created_at, 42);
    assert_eq!(g.members[0].role, GroupRole::Coordinator);
    assert_eq!(g.members[1].pipeline_stage, Some(3));
    assert!(matches!(g.purpose, GroupPurpose::ModelShard { total_shards: 2, .. }));
}

#[test]
fn shutdown_notice_is_graceful() {
    let m = ShutdownMessage::graceful("w".to_string(), "bye".to_string(), vec!["t1".to_string()]);
    assert!(m.graceful);
    assert_eq!(m.abandoned_tasks.len(), 1);
}

fn info() -> SystemInfo {
    SystemInfo {
        cpu_count: 8,
        total_memory_mb: 16384,
        os_name: "linux".to_string(),
        os_version: "Linux".to_string(),
        arch: "x86_64".to_string(),
        hostname: "box".to_string(),
    }
}

#[test]
fn test_health_status() {
    let monitor = HealthMonitor::new(info(), 0);
    let status = monitor.health_status(256, 0);

    assert!(!status.checks.is_empty());
    assert!(status.healthy);
    assert_eq!(status.message, "System healthy");
    assert_eq!(status.checks[0].detail, Some("16128MB available".to_string()));
    assert_eq!(status.checks[1].detail, Some("0.0% usage".to_string()));
}

#[test]
fn low_memory_is_unhealthy() {
    let monitor = HealthMonitor::new(info(), 1000);
    assert!(!monitor.is_healthy(16000, 0));
    assert!(!monitor.is_healthy(0, 951));
    let s = monitor.health_status(16000, 975);
    assert!(!s.healthy);
    assert!(!s.checks[0].passed);
    assert_eq!(s.checks[1].detail, Some("97.5% usage".to_string()));
    assert_eq!(monitor.uptime_secs(4500), 3);
    assert_eq!(monitor.memory_available_mb(20000), 0);
}

fn build(dirty: &'static str) -> BuildInfo {
    BuildInfo {
        version: "0.1.0",
        name: "worker",
        authors: "a",
        git_hash: "abcd1234",
        git_branch: "main",
        git_dirty_str: dirty,
        build_timestamp: "2026-01-01 00:00:00 UTC",
        target: "x86_64-unknown-linux-gnu",
        profile: "release",
        rustc_version: "rustc 1.80.0",
        host: "x86_64-unknown-linux-gnu",
    }
}

#[test]
fn build_info_versions() {
    assert_eq!(build("false").full_version(), "0.1.0-abcd1234");
    assert_eq!(build("true").full_version(), "0.1.0-abcd1234-dirty");
    assert_eq!(build("false").short_version(), "0.1.0 (abcd1234)");
    assert!(build("false").is_release());
    assert!(!build("false").is_debug());
    let report = build("true").report();
    assert!(report.contains("Version:"));
    assert!(report.contains("Git Hash:   abcd1234 (dirty)"));
    assert!(report.contains("Target:"));
}

#[test]
fn test_build_info_exists() {
    let info = build("false");
    assert!(!info.version.is_empty());
    assert!(!info.name.is_empty());
}

#[test]
fn test_full_version_format() {
    let info = build("false");
    let full = info.full_version();

    assert!(full.contains(info.version));
    assert!(full.contains(info.git_hash));
}

#[test]
fn test_display_format() {
    let info = build("false");
    let display = info.report();

    assert!(display.contains("Version:"));
    assert!(display.contains("Git Hash:"));
    assert!(display.contains("Target:"));
}
