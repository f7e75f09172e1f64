use worker::protocol::{TaskAssignment, TaskPriority};
use worker::tracker::{ActiveTask, AdmissionError, TaskSource, TaskState, TaskTracker};
use worker::types::TaskType;

fn make_test_assignment(task_id: &str) -> TaskAssignment {
    TaskAssignment {
        task_id: task_id.to_string(),
        block_id: None,
        day_id: None,
        priority: TaskPriority::Normal,
        model_id: "test-model".to_string(),
        task_type: TaskType::TextCompletion,
        is_canary: false,
        expected_hash: None,
        timeout_secs: 60,
    }
}

fn add(t: &mut TaskTracker, id: &str) -> Result<(), AdmissionError> {
    t.add_task(make_test_assignment(id), TaskSource::Coordinator, 0)
}

#[test]
fn test_active_task_lifecycle() {
    let mut tracker = TaskTracker::new(4);
    add(&mut tracker, "task-1").unwrap();
    let task = tracker.find_record("task-1").unwrap();
    assert_eq!(task.state, TaskState::Queued);
    assert!(task.started_at.is_none());

    tracker.mark_running("task-1", 5);
    let task = tracker.find_record("task-1").unwrap();
    assert_eq!(task.state, TaskState::Running);
    assert!(task.started_at.is_some());

    tracker.mark_completed("task-1", 9);
    let task = tracker.find_record("task-1").unwrap();
    assert_eq!(task.state, TaskState::Completed);
    assert!(task.completed_at.is_some());
}

#[test]
fn test_task_tracker_add() {
    let mut tracker = TaskTracker::new(2);

    assert!(add(&mut tracker, "task-1").is_ok());
    assert!(add(&mut tracker, "task-2").is_ok());
    assert!(add(&mut tracker, "task-3").is_err());
}

#[test]
fn capacity_refusal_changes_nothing() {
    let mut tracker = TaskTracker::new(2);
    add(&mut tracker, "t1").unwrap();
    add(&mut tracker, "t2").unwrap();
    assert_eq!(add(&mut tracker, "t3"), Err(AdmissionError::CapacityExhausted));
    assert_eq!(tracker.queued_count(), 2);
    assert!(tracker.task_state("t3").is_none());
    assert!(!tracker.can_accept());
    tracker.mark_running("t1", 1);
    tracker.mark_completed("t1", 2);
    assert!(add(&mut tracker, "t3").is_ok());
}

#[test]
fn duplicate_active_id_is_refused() {
    let mut tracker = TaskTracker::new(4);
    add(&mut tracker, "t1").unwrap();
    assert_eq!(add(&mut tracker, "t1"), Err(AdmissionError::DuplicateTask));
    tracker.cancel_task("t1", 1);
    assert!(add(&mut tracker, "t1").is_ok());
    assert_eq!(tracker.task_state("t1"), Some(TaskState::Queued));
}

#[test]
fn test_task_tracker_lifecycle() {
    let mut tracker = TaskTracker::new(4);

    add(&mut tracker, "task-1").unwrap();
    assert_eq!(tracker.queued_count(), 1);
    assert_eq!(tracker.running_count(), 0);

    tracker.mark_running("task-1", 1);
    assert_eq!(tracker.queued_count(), 0);
    assert_eq!(tracker.running_count(), 1);

    tracker.mark_completed("task-1", 2);
    assert_eq!(tracker.running_count(), 0);
    assert_eq!(tracker.total_completed(), 1);
}

#[test]
fn illegal_transitions_are_dropped() {
    let mut tracker = TaskTracker::new(4);
    add(&mut tracker, "t").unwrap();
    assert!(!tracker.mark_completed("t", 1));
    assert!(tracker.mark_running("t", 1));
    assert!(tracker.mark_failed("t", "boom".to_string(), 2));
    assert!(!tracker.mark_running("t", 3));
    assert!(!tracker.mark_completed("t", 3));
    assert_eq!(tracker.task_state("t"), Some(TaskState::Failed));
    assert_eq!(tracker.total_failed(), 1);
    assert_eq!(tracker.total_completed(), 0);
}

#[test]
fn test_task_tracker_cancel() {
    let mut tracker = TaskTracker::new(4);
    add(&mut tracker, "task-1").unwrap();
    tracker.mark_running("task-1", 1);

    assert!(tracker.cancel_task("task-1", 2));
    assert_eq!(tracker.running_count(), 0);
    assert!(tracker.find_record("task-1").unwrap().cancel_signalled);
}

#[test]
fn cancel_of_finished_task_is_refused() {
    let mut tracker = TaskTracker::new(4);
    add(&mut tracker, "t").unwrap();
    tracker.mark_running("t", 1);
    tracker.mark_completed("t", 2);
    assert!(!tracker.cancel_task("t", 3));
    assert_eq!(tracker.task_state("t"), Some(TaskState::Completed));
    assert!(!tracker.cancel_task("missing", 3));
}

#[test]
fn test_active_task_ids() {
    let mut tracker = TaskTracker::new(4);
    add(&mut tracker, "task-1").unwrap();
    add(&mut tracker, "task-2").unwrap();
    tracker.mark_running("task-1", 1);

    let ids = tracker.active_task_ids();
    assert_eq!(ids.len(), 2);
    assert!(ids.contains(&"task-1".to_string()));
    assert!(ids.contains(&"task-2".to_string()));
}

#[test]
fn metrics_measure_queue_and_execution() {
    let mut tracker = TaskTracker::new(4);
    tracker.add_task(make_test_assignment("t"), TaskSource::HttpPolled, 1000).unwrap();
    tracker.mark_running("t", 1500);
    let m = tracker.get_metrics("t", 2000).unwrap();
    assert_eq!(m.queue_time_ms, 500);
    assert_eq!(m.execution_time_ms, 500);
    assert_eq!(m.total_time_ms, 1000);
    assert_eq!(m.tokens_per_second, None);
    tracker.mark_completed("t", 3500);
    let m = tracker.get_metrics("t", 9999).unwrap();
    assert_eq!(m.execution_time_ms, 2000);
    assert_eq!(m.total_time_ms, 2500);
    assert!(tracker.get_metrics("missing", 0).is_none());
}

#[test]
fn tokens_per_second_of_a_record() {
    let mut task = ActiveTask::new(make_test_assignment("t"), TaskSource::Coordinator, 0);
    task.state = TaskState::Running;
    task.started_at = Some(0);
    task.tokens_processed = 300;
    let m = task.metrics(2000);
    assert_eq!(m.tokens_processed, Some(300));
    assert_eq!(m.tokens_per_second, Some(150));
}

#[test]
fn cleanup_keeps_most_recent_finished() {
    let mut tracker = TaskTracker::new(10);
    for (i, id) in ["a", "b", "c", "d"].iter().enumerate() {
        add(&mut tracker, id).unwrap();
        tracker.mark_running(id, 0);
        tracker.mark_completed(id, 100 - i as u64);
    }
    add(&mut tracker, "live").unwrap();
    tracker.cleanup_old_tasks(2);
    assert!(tracker.task_state("a").is_some());
    assert!(tracker.task_state("b").is_some());
    assert!(tracker.task_state("c").is_none());
    assert!(tracker.task_state("d").is_none());
    assert_eq!(tracker.task_state("live"), Some(TaskState::Queued));
}
