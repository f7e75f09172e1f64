use worker::backend::{BackendCapabilities, BackendRegistry, BackendType};
use worker::error::ErrorCode;
use worker::executor::{ExecutionOutcome, ExecutorConfig, StartDecision, SubmitError, TaskExecutor};
use worker::supervisor::{on_assignment, AssignmentOutcome};
use worker::protocol::{TaskAssignment, TaskPriority};
use worker::tracker::{TaskSource, TaskState};
use worker::types::TaskType;

fn assignment(id: &str, kind: TaskType, timeout_secs: u64) -> TaskAssignment {
    TaskAssignment {
        task_id: id.to_string(),
        block_id: None,
        day_id: None,
        priority: TaskPriority::Normal,
        model_id: "m".to_string(),
        task_type: kind,
        is_canary: false,
        expected_hash: None,
        timeout_secs,
    }
}

fn executor(max: usize) -> TaskExecutor {
    let mut config = ExecutorConfig::default();
    config.max_concurrent_tasks = max;
    let mut registry = BackendRegistry::new();
    registry.register(BackendType::Mock, BackendCapabilities::default());
    TaskExecutor::new(config, registry, "worker-1".to_string())
}

#[test]
fn happy_path_result() {
    let mut ex = executor(4);
    assert_eq!(ex.submit(assignment("t1", TaskType::TextCompletion, 60), TaskSource::Coordinator, 0), Ok(BackendType::Mock));
    match ex.start_task::<String>("t1", 10) {
        StartDecision::Run { timeout_secs } => assert_eq!(timeout_secs, 60),
        _ => panic!("expected to run"),
    }
    let r = ex.finish_task("t1", ExecutionOutcome::Succeeded("ok".to_string()), 20).unwrap();
    assert!(r.success);
    assert_eq!(r.task_id, "t1");
    assert_eq!(r.worker_id, "worker-1");
    assert_eq!(r.output, Some("ok".to_string()));
    assert_eq!(r.metrics.execution_time_ms, 10);
    assert!(ex.finish_task::<String>("t1", ExecutionOutcome::TimedOut, 30).is_none());
    assert_eq!(ex.tracker().total_completed(), 1);
}

#[test]
fn concurrency_cap_scenario() {
    let mut ex = executor(2);
    assert!(ex.submit(assignment("t1", TaskType::TextCompletion, 60), TaskSource::Coordinator, 0).is_ok());
    assert!(ex.submit(assignment("t2", TaskType::TextCompletion, 60), TaskSource::Coordinator, 0).is_ok());
    assert_eq!(
        ex.submit(assignment("t3", TaskType::TextCompletion, 60), TaskSource::Coordinator, 0),
        Err(SubmitError::CapacityExhausted)
    );
    assert!(ex.tracker().task_state("t3").is_none());
    ex.start_task::<String>("t1", 1);
    ex.finish_task("t1", ExecutionOutcome::Succeeded(String::new()), 2);
    assert!(ex.submit(assignment("t3", TaskType::TextCompletion, 60), TaskSource::Coordinator, 3).is_ok());
}

#[test]
fn unsupported_kind_is_refused() {
    let mut ex = executor(2);
    assert_eq!(
        ex.submit(assignment("t1", TaskType::WebCrawl, 60), TaskSource::Coordinator, 0),
        Err(SubmitError::NotSupported)
    );
}

#[test]
fn timeout_result_is_retryable_e501() {
    let mut ex = executor(2);
    ex.submit(assignment("t4", TaskType::TextCompletion, 1), TaskSource::Coordinator, 0).unwrap();
    ex.start_task::<String>("t4", 0);
    let r = ex.finish_task::<String>("t4", ExecutionOutcome::TimedOut, 1000).unwrap();
    assert!(!r.success);
    let e = r.error.unwrap();
    assert_eq!(e.code, "E501");
    assert!(e.retryable);
    assert_eq!(e.message, "Task timed out after 1 seconds");
    assert_eq!(ex.tracker().task_state("t4"), Some(TaskState::Failed));
}

#[test]
fn zero_timeout_finishes_at_once() {
    let mut ex = executor(2);
    ex.submit(assignment("t0", TaskType::TextCompletion, 0), TaskSource::Coordinator, 0).unwrap();
    match ex.start_task::<String>("t0", 5) {
        StartDecision::Finished(r) => {
            assert!(!r.success);
            let e = r.error.unwrap();
            assert_eq!(e.code, "E501");
            assert!(e.retryable);
        }
        _ => panic!("expected an immediate timeout"),
    }
    assert!(ex.finish_task::<String>("t0", ExecutionOutcome::TimedOut, 6).is_none());
}

#[test]
fn backend_failure_keeps_its_classification() {
    let mut ex = executor(2);
    ex.submit(assignment("t5", TaskType::TextCompletion, 60), TaskSource::Coordinator, 0).unwrap();
    ex.start_task::<String>("t5", 0);
    let r = ex
        .finish_task::<String>(
            "t5",
            ExecutionOutcome::Failed { code: ErrorCode::ModelLoadFailed, message: "no model".to_string(), retryable: false },
            3,
        )
        .unwrap();
    let e = r.error.unwrap();
    assert_eq!(e.code, "E601");
    assert!(!e.retryable);
    assert_eq!(ex.tracker().total_failed(), 1);
}

#[test]
fn cancelled_task_still_reports_once() {
    let mut ex = executor(2);
    ex.submit(assignment("t6", TaskType::TextCompletion, 60), TaskSource::Coordinator, 0).unwrap();
    ex.start_task::<String>("t6", 0);
    assert!(ex.cancel("t6", 1));
    assert!(!ex.cancel("t6", 2));
    assert!(ex.finish_task("t6", ExecutionOutcome::Succeeded("late".to_string()), 3).is_some());
    assert!(ex.finish_task("t6", ExecutionOutcome::Succeeded("late".to_string()), 4).is_none());
    assert_eq!(ex.tracker().task_state("t6"), Some(TaskState::Cancelled));
}

#[test]
fn every_assignment_is_answered() {
    let mut ex = executor(1);
    match on_assignment::<String>(&mut ex, assignment("a1", TaskType::TextCompletion, 60), TaskSource::Coordinator, 0) {
        AssignmentOutcome::Accepted(b) => assert_eq!(b, BackendType::Mock),
        AssignmentOutcome::Refused(_) => panic!("expected acceptance"),
    }
    match on_assignment::<String>(&mut ex, assignment("a2", TaskType::TextCompletion, 60), TaskSource::Coordinator, 0) {
        AssignmentOutcome::Refused(r) => {
            assert_eq!(r.task_id, "a2");
            assert_eq!(r.worker_id, "worker-1");
            assert!(!r.success);
            assert_eq!(r.error.unwrap().code, "E700");
        }
        AssignmentOutcome::Accepted(_) => panic!("expected refusal"),
    }
}
