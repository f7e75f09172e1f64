//! Task execution: admission against the tracker and the backend registry,
//! and the results that finished executions produce.
//!
//! The caller runs each accepted task on the chosen backend under its
//! timeout and hands the outcome back; each task's result comes out once.

use vstd::prelude::*;
use crate::backend::{pick_backend, selection_order, BackendCapabilities, BackendRegistry, BackendType};
use crate::error::{Error, ErrorCode};
use crate::protocol::TaskAssignment;
use crate::text::{decimal, u64_to_decimal};
use crate::tracker::{index_of, lemma_index_of, lemma_index_of_unique, ActiveTask, AdmissionError, TaskMetrics, TaskSource, TaskState, TaskTracker};

verus! {

/// Settings of the executor.
#[derive(Debug, Clone, Copy, PartialEq, Eq, Structural)]
pub struct ExecutorConfig {
    pub max_concurrent_tasks: usize,
    pub default_timeout_secs: u32,
    pub detailed_metrics: bool,
    /// Capacity of the result channel.
    pub queue_size: usize,
}

impl Default for ExecutorConfig {
    fn default() -> (r: Self)
        ensures
            r == (ExecutorConfig { max_concurrent_tasks: 4, default_timeout_secs: 300, detailed_metrics: true, queue_size: 100 }),
    {
        ExecutorConfig { max_concurrent_tasks: 4, default_timeout_secs: 300, detailed_metrics: true, queue_size: 100 }
    }
}

/// Why a submission was refused.
#[derive(Debug, Clone, Copy, PartialEq, Eq, Structural)]
pub enum SubmitError {
    /// Running plus queued tasks already fill every slot.
    CapacityExhausted,
    /// No registered backend executes this kind of task.
    NotSupported,
    /// A task with the same id is still queued or running.
    DuplicateTask,
}

/// A failure reported in a task result.
#[derive(Debug, Clone)]
pub struct TaskError {
    /// Error code in text form, such as `E501`.
    pub code: String,
    pub message: String,
    pub retryable: bool,
    pub details: Option<String>,
}

/// The result of one task, as sent back to its origin.
#[derive(Debug, Clone)]
pub struct TaskResult<O> {
    pub task_id: String,
    pub worker_id: String,
    pub success: bool,
    pub output: Option<O>,
    pub error: Option<TaskError>,
    pub metrics: TaskMetrics,
}

/// How an execution ended.
pub enum ExecutionOutcome<O> {
    /// The backend produced an output.
    Succeeded(O),
    /// The backend failed; `retryable` is the failure's own classification.
    Failed { code: ErrorCode, message: String, retryable: bool },
    /// The timeout fired first.
    TimedOut,
}

impl<O> ExecutionOutcome<O> {
    /// The outcome of a backend that failed with `e`: its code, its message,
    /// and its own retry classification.
    pub fn failed_with(e: &Error) -> (r: Self)
        ensures
            match r {
                ExecutionOutcome::Failed { code, message, retryable } => code == e.code_spec()
                    && message@ == e.message_spec() && retryable == e.retryable_spec(),
                _ => false,
            },
    {
        ExecutionOutcome::Failed { code: e.code(), message: e.to_string(), retryable: e.is_retryable() }
    }
}

/// What to do with a task that is due to start.
pub enum StartDecision<O> {
    /// Run it, allowing `timeout_secs`.
    Run { timeout_secs: u64 },
    /// It is over already; send this result.
    Finished(TaskResult<O>),
    /// Not a queued task: nothing to do.
    NotQueued,
}

/// Message of a timeout after `secs` seconds.
pub open spec fn timeout_message(secs: u64) -> Seq<char> {
    "Task timed out after "@ + decimal(secs as nat) + " seconds"@
}

/// Message of a timeout after `secs` seconds.
fn timeout_text(secs: u64) -> (r: String)
    ensures
        r@ == timeout_message(secs),
{
    let mut message = "Task timed out after ".to_owned();
    message.append(u64_to_decimal(secs).as_str());
    message.append(" seconds");
    assert(message@ =~= timeout_message(secs));
    message
}

/// The error a result carries for an outcome, as plain values: code text,
/// message and retryability.
pub open spec fn outcome_error<O>(outcome: ExecutionOutcome<O>, timeout_secs: u64) -> Option<(Seq<char>, Seq<char>, bool)> {
    match outcome {
        ExecutionOutcome::Succeeded(_) => None,
        ExecutionOutcome::Failed { code, message, retryable } => Some((code.text(), message@, retryable)),
        ExecutionOutcome::TimedOut => Some((ErrorCode::ExecutionTimeout.text(), timeout_message(timeout_secs), true)),
    }
}

/// The result `r` reports `outcome` for task record `e` as seen by worker
/// `worker_id` at `now`.
pub open spec fn result_matches<O>(r: TaskResult<O>, e: ActiveTask, worker_id: Seq<char>, outcome: ExecutionOutcome<O>, now: u64) -> bool {
    &&& r.task_id@ == e.id()
    &&& r.worker_id@ == worker_id
    &&& r.success == (outcome is Succeeded)
    &&& r.output == match outcome {
        ExecutionOutcome::Succeeded(o) => Some(o),
        _ => None::<O>,
    }
    &&& match (r.error, outcome_error(outcome, e.assignment.timeout_secs)) {
        (None, None) => true,
        (Some(err), Some((c, m, rt))) => err.code@ == c && err.message@ == m && err.retryable == rt && err.details is None,
        _ => false,
    }
    &&& r.metrics == e.metrics_spec(now)
}

/// No running record has a zero timeout.
pub open spec fn no_zero_timeout_running(s: Seq<ActiveTask>) -> bool {
    forall|i: int| 0 <= i < s.len() && (#[trigger] s[i]).state == TaskState::Running ==> s[i].assignment.timeout_secs > 0
}

/// A task with a zero timeout is queued or finished, never running.
pub proof fn lemma_zero_timeout_never_runs(ex: &TaskExecutor, task_id: Seq<char>)
    requires
        ex.wf(),
        ex.tracker_spec().lookup(task_id) is Some,
        ex.tracker_spec().lookup(task_id).unwrap().assignment.timeout_secs == 0,
    ensures
        ex.tracker_spec().lookup(task_id).unwrap().state != TaskState::Running,
{
    lemma_index_of(ex.tracker_spec().entries(), task_id);
}

/// Accepts tasks against a tracker and a backend registry.
pub struct TaskExecutor {
    config: ExecutorConfig,
    tracker: TaskTracker,
    registry: BackendRegistry,
    worker_id: String,
}

impl TaskExecutor {
    pub closed spec fn tracker_spec(&self) -> TaskTracker {
        self.tracker
    }

    pub closed spec fn registry_spec(&self) -> BackendRegistry {
        self.registry
    }

    pub closed spec fn config_spec(&self) -> ExecutorConfig {
        self.config
    }

    pub closed spec fn worker_id_spec(&self) -> Seq<char> {
        self.worker_id@
    }

    /// The tracker and the registry are well formed.
    pub open spec fn base_wf(&self) -> bool {
        self.tracker_spec().wf() && self.registry_spec().wf()
    }

    /// Well formed, and no task with a zero timeout is ever left running:
    /// such a task fails the moment it starts.
    pub open spec fn wf(&self) -> bool {
        &&& self.base_wf()
        &&& no_zero_timeout_running(self.tracker_spec().entries())
    }

    /// An executor with no tasks, accepting `config.max_concurrent_tasks`
    /// at a time, over `registry`.
    pub fn new(config: ExecutorConfig, registry: BackendRegistry, worker_id: String) -> (r: Self)
        requires
            registry.wf(),
        ensures
            r.wf(),
            r.tracker_spec().entries() == Seq::<ActiveTask>::empty(),
            r.tracker_spec().max_spec() == config.max_concurrent_tasks,
            r.tracker_spec().completed_spec() == 0,
            r.tracker_spec().failed_spec() == 0,
            r.registry_spec() == registry,
            r.worker_id_spec() == worker_id@,
            r.config_spec() == config,
    {
        let tracker = TaskTracker::new(config.max_concurrent_tasks);
        TaskExecutor { config, tracker, registry, worker_id }
    }

    /// The executor's settings.
    pub fn config(&self) -> (r: &ExecutorConfig)
        ensures
            *r == self.config_spec(),
    {
        &self.config
    }

    /// This worker's id, as results carry it.
    pub fn worker_id(&self) -> (r: String)
        ensures
            r@ == self.worker_id_spec(),
    {
        self.worker_id.clone()
    }

    /// The task table.
    pub fn tracker(&self) -> (r: &TaskTracker)
        ensures
            *r == self.tracker_spec(),
    {
        &self.tracker
    }

    /// The backend registry.
    pub fn registry(&self) -> (r: &BackendRegistry)
        ensures
            *r == self.registry_spec(),
    {
        &self.registry
    }

    /// Registers a backend's capabilities under its kind.
    pub fn register_backend(&mut self, k: BackendType, caps: BackendCapabilities)
        requires
            old(self).wf(),
        ensures
            final(self).wf(),
            final(self).tracker_spec() == old(self).tracker_spec(),
            final(self).worker_id_spec() == old(self).worker_id_spec(),
            final(self).registry_spec().caps_of(k) == Some(caps),
            forall|o: BackendType| o != k ==> final(self).registry_spec().caps_of(o) == old(self).registry_spec().caps_of(o),
    {
        self.registry.register(k, caps);
    }

    /// Accepts an assignment: refused, with nothing changed, when every slot
    /// is taken, when no backend executes its kind, or when a task of the
    /// same id is still active. Answers the backend to run it on.
    pub fn submit(&mut self, assignment: TaskAssignment, source: TaskSource, now: u64) -> (r: Result<BackendType, SubmitError>)
        requires
            old(self).wf(),
        ensures
            final(self).wf(),
            final(self).registry_spec() == old(self).registry_spec(),
            final(self).worker_id_spec() == old(self).worker_id_spec(),
            final(self).tracker_spec().same_counters(&old(self).tracker_spec()),
            old(self).tracker_spec().active_spec() >= old(self).tracker_spec().max_spec()
                ==> r == Err::<BackendType, SubmitError>(SubmitError::CapacityExhausted),
            old(self).tracker_spec().active_spec() < old(self).tracker_spec().max_spec()
                && pick_backend(selection_order(), old(self).registry_spec().slots_spec(), assignment.task_type) is None
                ==> r == Err::<BackendType, SubmitError>(SubmitError::NotSupported),
            old(self).tracker_spec().active_spec() < old(self).tracker_spec().max_spec()
                && pick_backend(selection_order(), old(self).registry_spec().slots_spec(), assignment.task_type) is Some
                && old(self).tracker_spec().lookup(assignment.task_id@) is Some
                && old(self).tracker_spec().lookup(assignment.task_id@).unwrap().state.is_active()
                ==> r == Err::<BackendType, SubmitError>(SubmitError::DuplicateTask),
            r is Ok <==> (old(self).tracker_spec().active_spec() < old(self).tracker_spec().max_spec()
                && pick_backend(selection_order(), old(self).registry_spec().slots_spec(), assignment.task_type) is Some
                && !(old(self).tracker_spec().lookup(assignment.task_id@) is Some
                    && old(self).tracker_spec().lookup(assignment.task_id@).unwrap().state.is_active())),
            r is Err ==> final(self).tracker_spec().entries() == old(self).tracker_spec().entries(),
            r is Ok ==> r == Ok::<BackendType, SubmitError>(
                    pick_backend(selection_order(), old(self).registry_spec().slots_spec(), assignment.task_type).unwrap())
                && final(self).tracker_spec().entries() == {
                    let i = index_of(old(self).tracker_spec().entries(), assignment.task_id@);
                    let e = ActiveTask::fresh(assignment, source, now);
                    if i >= 0 { old(self).tracker_spec().entries().update(i, e) } else { old(self).tracker_spec().entries().push(e) }
                },
    {
        if !self.tracker.can_accept() {
            return Err(SubmitError::CapacityExhausted);
        }
        let backend = match self.registry.best_backend_for_task(assignment.task_type) {
            Some(b) => b,
            None => return Err(SubmitError::NotSupported),
        };
        let ghost t0 = self.tracker.entries();
        let ghost aid = assignment.task_id@;
        let r = self.tracker.add_task(assignment, source, now);
        proof {
            lemma_index_of(t0, aid);
            let t = self.tracker.entries();
            assert forall|j: int| 0 <= j < t.len() && (#[trigger] t[j]).state == TaskState::Running
                implies t[j].assignment.timeout_secs > 0 by {
                if j < t0.len() && j != index_of(t0, aid) {
                    assert(t[j] == t0[j]);
                }
            }
        }
        match r {
            Ok(()) => Ok(backend),
            Err(AdmissionError::CapacityExhausted) => Err(SubmitError::CapacityExhausted),
            Err(AdmissionError::DuplicateTask) => Err(SubmitError::DuplicateTask),
        }
    }

    /// Cancels a queued or running task.
    pub fn cancel(&mut self, task_id: &str, now: u64) -> (r: bool)
        requires
            old(self).wf(),
        ensures
            final(self).wf(),
            final(self).registry_spec() == old(self).registry_spec(),
            final(self).worker_id_spec() == old(self).worker_id_spec(),
            final(self).tracker_spec().same_counters(&old(self).tracker_spec()),
            r == (old(self).tracker_spec().lookup(task_id@) is Some
                && old(self).tracker_spec().lookup(task_id@).unwrap().state.is_active()),
            !r ==> final(self).tracker_spec().entries() == old(self).tracker_spec().entries(),
    {
        let ghost t0 = self.tracker.entries();
        let r = self.tracker.cancel_task(task_id, now);
        proof {
            lemma_index_of(t0, task_id@);
            let t = self.tracker.entries();
            assert forall|j: int| 0 <= j < t.len() && (#[trigger] t[j]).state == TaskState::Running
                implies t[j].assignment.timeout_secs > 0 by {
                if j != index_of(t0, task_id@) || !r {
                    assert(t[j] == t0[j]);
                }
            }
        }
        r
    }

    /// Builds the result of task record `e` for `outcome`.
    fn build_result<O>(&self, e: &ActiveTask, outcome: ExecutionOutcome<O>, now: u64) -> (r: TaskResult<O>)
        ensures
            result_matches(r, *e, self.worker_id_spec(), outcome, now),
    {
        let metrics = e.metrics(now);
        let timeout_secs = e.assignment.timeout_secs;
        match outcome {
            ExecutionOutcome::Succeeded(o) => TaskResult {
                task_id: e.assignment.task_id.clone(),
                worker_id: self.worker_id.clone(),
                success: true,
                output: Some(o),
                error: None,
                metrics,
            },
            ExecutionOutcome::Failed { code, message, retryable } => TaskResult {
                task_id: e.assignment.task_id.clone(),
                worker_id: self.worker_id.clone(),
                success: false,
                output: None,
                error: Some(TaskError { code: code.as_str(), message, retryable, details: None }),
                metrics,
            },
            ExecutionOutcome::TimedOut => {
                let message = timeout_text(timeout_secs);
                TaskResult {
                    task_id: e.assignment.task_id.clone(),
                    worker_id: self.worker_id.clone(),
                    success: false,
                    output: None,
                    error: Some(TaskError { code: ErrorCode::ExecutionTimeout.as_str(), message, retryable: true, details: None }),
                    metrics,
                }
            },
        }
    }

    fn finish_core<O>(&mut self, task_id: &str, outcome: ExecutionOutcome<O>, now: u64) -> (r: Option<TaskResult<O>>)
        requires
            old(self).base_wf(),
        ensures
            final(self).base_wf(),
            final(self).tracker_spec().entries().len() == old(self).tracker_spec().entries().len(),
            forall|j: int| 0 <= j < old(self).tracker_spec().entries().len() && j != index_of(old(self).tracker_spec().entries(), task_id@)
                ==> final(self).tracker_spec().entries()[j] == old(self).tracker_spec().entries()[j],
            r is Some ==> index_of(final(self).tracker_spec().entries(), task_id@) == index_of(old(self).tracker_spec().entries(), task_id@)
                && index_of(old(self).tracker_spec().entries(), task_id@) >= 0,
            final(self).registry_spec() == old(self).registry_spec(),
            final(self).worker_id_spec() == old(self).worker_id_spec(),
            final(self).tracker_spec().max_spec() == old(self).tracker_spec().max_spec(),
            final(self).tracker_spec().completed_spec() >= old(self).tracker_spec().completed_spec(),
            final(self).tracker_spec().failed_spec() >= old(self).tracker_spec().failed_spec(),
            r is Some <==> (old(self).tracker_spec().lookup(task_id@) is Some && {
                let e = old(self).tracker_spec().lookup(task_id@).unwrap();
                (e.state == TaskState::Running || e.state == TaskState::Cancelled) && !e.result_reported
            }),
            r is Some ==> {
                let e = final(self).tracker_spec().lookup(task_id@).unwrap();
                &&& final(self).tracker_spec().lookup(task_id@) is Some
                &&& e.result_reported
                &&& e.state == match (old(self).tracker_spec().lookup(task_id@).unwrap().state, outcome) {
                    (TaskState::Running, ExecutionOutcome::Succeeded(_)) => TaskState::Completed,
                    (TaskState::Running, _) => TaskState::Failed,
                    (s, _) => s,
                }
                &&& result_matches(r.unwrap(), e, old(self).worker_id_spec(), outcome, now)
            },
            !(outcome is Succeeded) ==> final(self).tracker_spec().completed_spec() == old(self).tracker_spec().completed_spec(),
            outcome is Succeeded ==> final(self).tracker_spec().failed_spec() == old(self).tracker_spec().failed_spec(),
            r is None ==> final(self).tracker_spec().entries() == old(self).tracker_spec().entries()
                && final(self).tracker_spec().same_counters(&old(self).tracker_spec()),
    {
        let (st, timeout_secs) = match self.tracker.find_record(task_id) {
            Some(e) => (e.state, e.assignment.timeout_secs),
            None => return None,
        };
        if st != TaskState::Running && st != TaskState::Cancelled {
            return None;
        }
        let ghost t0 = self.tracker.entries();
        let ghost i = index_of(t0, task_id@);
        proof { lemma_index_of(t0, task_id@); }
        if st == TaskState::Running {
            match &outcome {
                ExecutionOutcome::Succeeded(_) => {
                    self.tracker.mark_completed(task_id, now);
                },
                ExecutionOutcome::Failed { message, .. } => {
                    self.tracker.mark_failed(task_id, message.clone(), now);
                },
                ExecutionOutcome::TimedOut => {
                    self.tracker.mark_failed(task_id, timeout_text(timeout_secs), now);
                },
            }
        }
        let ghost t1 = self.tracker.entries();
        proof {
            lemma_index_of_unique(self.tracker.entries(), i);
            assert(self.tracker.entries()[i].wf());
        }
        let ok = self.tracker.mark_reported(task_id);
        if !ok {
            return None;
        }
        proof { lemma_index_of_unique(self.tracker.entries(), i); }
        match self.tracker.find_record(task_id) {
            Some(e) => Some(self.build_result(e, outcome, now)),
            None => None,
        }
    }

    /// Records how an execution ended and hands out the task's result, once:
    /// `None` for a task that is not running or cancelled, or whose result
    /// went out already. A cancelled task keeps its state; its result still
    /// reports the outcome.
    pub fn finish_task<O>(&mut self, task_id: &str, outcome: ExecutionOutcome<O>, now: u64) -> (r: Option<TaskResult<O>>)
        requires
            old(self).wf(),
        ensures
            final(self).wf(),
            final(self).registry_spec() == old(self).registry_spec(),
            final(self).worker_id_spec() == old(self).worker_id_spec(),
            final(self).tracker_spec().max_spec() == old(self).tracker_spec().max_spec(),
            final(self).tracker_spec().completed_spec() >= old(self).tracker_spec().completed_spec(),
            final(self).tracker_spec().failed_spec() >= old(self).tracker_spec().failed_spec(),
            r is Some <==> (old(self).tracker_spec().lookup(task_id@) is Some && {
                let e = old(self).tracker_spec().lookup(task_id@).unwrap();
                (e.state == TaskState::Running || e.state == TaskState::Cancelled) && !e.result_reported
            }),
            r is Some ==> {
                let e = final(self).tracker_spec().lookup(task_id@).unwrap();
                &&& final(self).tracker_spec().lookup(task_id@) is Some
                &&& e.result_reported
                &&& e.state == match (old(self).tracker_spec().lookup(task_id@).unwrap().state, outcome) {
                    (TaskState::Running, ExecutionOutcome::Succeeded(_)) => TaskState::Completed,
                    (TaskState::Running, _) => TaskState::Failed,
                    (s, _) => s,
                }
                &&& result_matches(r.unwrap(), e, old(self).worker_id_spec(), outcome, now)
            },
            !(outcome is Succeeded) ==> final(self).tracker_spec().completed_spec() == old(self).tracker_spec().completed_spec(),
            outcome is Succeeded ==> final(self).tracker_spec().failed_spec() == old(self).tracker_spec().failed_spec(),
            r is None ==> final(self).tracker_spec().entries() == old(self).tracker_spec().entries()
                && final(self).tracker_spec().same_counters(&old(self).tracker_spec()),
    {
        let ghost t0 = self.tracker_spec().entries();
        let r = self.finish_core(task_id, outcome, now);
        proof {
            let t = self.tracker_spec().entries();
            lemma_index_of(t0, task_id@);
            if r is Some {
                lemma_index_of(t, task_id@);
            }
            assert forall|j: int| 0 <= j < t.len() && (#[trigger] t[j]).state == TaskState::Running
                implies t[j].assignment.timeout_secs > 0 by {
                if j != index_of(t0, task_id@) || r is None {
                    assert(t[j] == t0[j]);
                }
            }
        }
        r
    }

    /// Starts a queued task. With a zero timeout it is over at once: it
    /// fails with a retryable timeout and its result is handed out.
    pub fn start_task<O>(&mut self, task_id: &str, now: u64) -> (r: StartDecision<O>)
        requires
            old(self).wf(),
        ensures
            final(self).wf(),
            final(self).registry_spec() == old(self).registry_spec(),
            final(self).worker_id_spec() == old(self).worker_id_spec(),
            final(self).tracker_spec().max_spec() == old(self).tracker_spec().max_spec(),
            final(self).tracker_spec().completed_spec() == old(self).tracker_spec().completed_spec(),
            final(self).tracker_spec().failed_spec() >= old(self).tracker_spec().failed_spec(),
            r is NotQueued <==> !(old(self).tracker_spec().lookup(task_id@) is Some
                && old(self).tracker_spec().lookup(task_id@).unwrap().state == TaskState::Queued),
            r is NotQueued ==> final(self).tracker_spec().entries() == old(self).tracker_spec().entries(),
            match r {
                StartDecision::Run { timeout_secs } => {
                    let e = old(self).tracker_spec().lookup(task_id@).unwrap();
                    &&& timeout_secs == e.assignment.timeout_secs
                    &&& timeout_secs > 0
                    &&& final(self).tracker_spec().lookup(task_id@) == Some(crate::tracker::started(e, now))
                },
                StartDecision::Finished(res) => {
                    let e = final(self).tracker_spec().lookup(task_id@).unwrap();
                    &&& old(self).tracker_spec().lookup(task_id@).unwrap().assignment.timeout_secs == 0
                    &&& final(self).tracker_spec().lookup(task_id@) is Some
                    &&& e.state == TaskState::Failed
                    &&& e.result_reported
                    &&& result_matches(res, e, old(self).worker_id_spec(), ExecutionOutcome::<O>::TimedOut, now)
                },
                StartDecision::NotQueued => true,
            },
            old(self).tracker_spec().lookup(task_id@) is Some
                && old(self).tracker_spec().lookup(task_id@).unwrap().state == TaskState::Queued
                && old(self).tracker_spec().lookup(task_id@).unwrap().assignment.timeout_secs == 0
                ==> r is Finished,
            old(self).tracker_spec().lookup(task_id@) is Some
                && old(self).tracker_spec().lookup(task_id@).unwrap().state.is_active()
                && old(self).tracker_spec().lookup(task_id@).unwrap().assignment.timeout_secs == 0
                ==> r is Finished,
    {
        proof {
            if self.tracker_spec().lookup(task_id@) is Some
                && self.tracker_spec().lookup(task_id@).unwrap().assignment.timeout_secs == 0 {
                lemma_zero_timeout_never_runs(self, task_id@);
            }
        }
        let timeout_secs = match self.tracker.find_record(task_id) {
            Some(e) => {
                if e.state != TaskState::Queued {
                    return StartDecision::NotQueued;
                }
                e.assignment.timeout_secs
            },
            None => return StartDecision::NotQueued,
        };
        let ghost t0 = self.tracker.entries();
        let ghost i = index_of(t0, task_id@);
        proof { lemma_index_of(t0, task_id@); }
        self.tracker.mark_running(task_id, now);
        proof {
            lemma_index_of_unique(self.tracker.entries(), i);
            assert(t0[i].wf());
        }
        if timeout_secs == 0 {
            match self.finish_core(task_id, ExecutionOutcome::TimedOut, now) {
                Some(res) => StartDecision::Finished(res),
                None => StartDecision::NotQueued,
            }
        } else {
            StartDecision::Run { timeout_secs }
        }
    }
}

} // verus!
