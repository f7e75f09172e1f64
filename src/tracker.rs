//! Task tracking: the per-task state machine and bounded admission.
//!
//! Timestamps are milliseconds on a monotonic clock, handed in by the caller.

use vstd::prelude::*;
use crate::protocol::{TaskAssignment, TaskPriority};
use crate::types::TaskType;

verus! {

/// Where a task came from; decides the path its result takes back.
#[derive(Debug, Clone)]
pub enum TaskSource {
    Coordinator,
    Peer { worker_id: String },
    HttpPolled,
}

impl Default for TaskSource {
    fn default() -> (r: Self)
        ensures
            r is Coordinator,
    {
        TaskSource::Coordinator
    }
}

/// Life-cycle state of a tracked task.
#[derive(Debug, Clone, Copy, PartialEq, Eq, Structural)]
pub enum TaskState {
    Queued,
    Running,
    Completed,
    Failed,
    Cancelled,
}

impl TaskState {
    /// Queued or running: the task holds a concurrency slot.
    pub open spec fn is_active(self) -> bool {
        self == TaskState::Queued || self == TaskState::Running
    }

    /// Completed, failed or cancelled.
    pub open spec fn is_terminal(self) -> bool {
        !self.is_active()
    }
}

impl Default for TaskState {
    fn default() -> (r: Self)
        ensures
            r == TaskState::Queued,
    {
        TaskState::Queued
    }
}

/// Timing and throughput figures of one task.
#[derive(Debug, Clone, Copy, PartialEq, Eq, Structural)]
pub struct TaskMetrics {
    pub queue_time_ms: u64,
    pub execution_time_ms: u64,
    pub total_time_ms: u64,
    pub tokens_processed: Option<u32>,
    /// Whole tokens per second of execution time.
    pub tokens_per_second: Option<u64>,
    pub peak_memory_mb: Option<u64>,
    pub peak_gpu_memory_mb: Option<u64>,
}

/// `a - b`, or zero when `b` is later.
pub open spec fn elapsed(a: u64, b: u64) -> u64 {
    if a >= b { (a - b) as u64 } else { 0 }
}

/// The tracker's record of one task.
#[derive(Debug, Clone)]
pub struct ActiveTask {
    pub assignment: TaskAssignment,
    pub state: TaskState,
    pub received_at: u64,
    pub started_at: Option<u64>,
    pub completed_at: Option<u64>,
    /// Set once the single-shot cancellation signal has been raised.
    pub cancel_signalled: bool,
    pub error: Option<String>,
    pub tokens_processed: u32,
    pub source: TaskSource,
    /// Set once the task's result has been handed out.
    pub result_reported: bool,
}

impl ActiveTask {
    /// Timestamps agree with the state: started iff past the queue (a task
    /// cancelled while queued never started), finished iff terminal.
    pub open spec fn wf(&self) -> bool {
        &&& (self.state == TaskState::Queued ==> self.started_at.is_none())
        &&& (self.state == TaskState::Running || self.state == TaskState::Completed
            || self.state == TaskState::Failed ==> self.started_at.is_some())
        &&& (self.completed_at.is_some() <==> self.state.is_terminal())
        &&& (self.state.is_active() ==> !self.result_reported)
    }

    pub open spec fn id(&self) -> Seq<char> {
        self.assignment.task_id@
    }

    /// The record of a freshly received task.
    pub open spec fn fresh(a: TaskAssignment, source: TaskSource, now: u64) -> ActiveTask {
        ActiveTask {
            assignment: a,
            state: TaskState::Queued,
            received_at: now,
            started_at: None,
            completed_at: None,
            cancel_signalled: false,
            error: None,
            tokens_processed: 0,
            source,
            result_reported: false,
        }
    }

    /// A queued record of an assignment received at `now`.
    pub fn new(assignment: TaskAssignment, source: TaskSource, now: u64) -> (r: Self)
        ensures
            r == ActiveTask::fresh(assignment, source, now),
            r.wf(),
    {
        ActiveTask {
            assignment,
            state: TaskState::Queued,
            received_at: now,
            started_at: None,
            completed_at: None,
            cancel_signalled: false,
            error: None,
            tokens_processed: 0,
            source,
            result_reported: false,
        }
    }

    /// The task id.
    pub fn task_id(&self) -> (r: &str)
        ensures
            r@ == self.id(),
    {
        self.assignment.task_id.as_str()
    }

    /// The kind of work.
    pub fn task_type(&self) -> (r: TaskType)
        ensures
            r == self.assignment.task_type,
    {
        self.assignment.task_type
    }

    /// The scheduling priority.
    pub fn priority(&self) -> (r: TaskPriority)
        ensures
            r == self.assignment.priority,
    {
        self.assignment.priority
    }

    pub open spec fn queue_time_spec(&self) -> u64 {
        match self.started_at {
            Some(s) => elapsed(s, self.received_at),
            None => 0,
        }
    }

    pub open spec fn execution_time_spec(&self, now: u64) -> u64 {
        match (self.started_at, self.completed_at) {
            (Some(s), Some(e)) => elapsed(e, s),
            (Some(s), None) => elapsed(now, s),
            _ => 0,
        }
    }

    pub open spec fn total_time_spec(&self, now: u64) -> u64 {
        match self.completed_at {
            Some(e) => elapsed(e, self.received_at),
            None => elapsed(now, self.received_at),
        }
    }

    pub open spec fn tokens_per_second_spec(&self, now: u64) -> Option<u64> {
        let exec = self.execution_time_spec(now);
        if self.tokens_processed == 0 || exec == 0 {
            None
        } else {
            Some((self.tokens_processed as int * 1000 / exec as int) as u64)
        }
    }

    pub open spec fn metrics_spec(&self, now: u64) -> TaskMetrics {
        TaskMetrics {
            queue_time_ms: self.queue_time_spec(),
            execution_time_ms: self.execution_time_spec(now),
            total_time_ms: self.total_time_spec(now),
            tokens_processed: if self.tokens_processed > 0 { Some(self.tokens_processed) } else { None },
            tokens_per_second: self.tokens_per_second_spec(now),
            peak_memory_mb: None,
            peak_gpu_memory_mb: None,
        }
    }

    /// Started minus received; zero while queued.
    pub fn queue_time_ms(&self) -> (r: u64)
        ensures
            r == self.queue_time_spec(),
    {
        match self.started_at {
            Some(s) => s.saturating_sub(self.received_at),
            None => 0,
        }
    }

    /// Completed (or `now`) minus started; zero before the start.
    pub fn execution_time_ms(&self, now: u64) -> (r: u64)
        ensures
            r == self.execution_time_spec(now),
    {
        match (self.started_at, self.completed_at) {
            (Some(s), Some(e)) => e.saturating_sub(s),
            (Some(s), None) => now.saturating_sub(s),
            _ => 0,
        }
    }

    /// Completed (or `now`) minus received.
    pub fn total_time_ms(&self, now: u64) -> (r: u64)
        ensures
            r == self.total_time_spec(now),
    {
        match self.completed_at {
            Some(e) => e.saturating_sub(self.received_at),
            None => now.saturating_sub(self.received_at),
        }
    }

    /// The task's metrics as of `now`.
    pub fn metrics(&self, now: u64) -> (r: TaskMetrics)
        ensures
            r == self.metrics_spec(now),
    {
        let exec = self.execution_time_ms(now);
        let tps = if self.tokens_processed == 0 || exec == 0 {
            None
        } else {
            assert(self.tokens_processed as u64 * 1000 <= u32::MAX as u64 * 1000) by (nonlinear_arith)
                requires self.tokens_processed <= u32::MAX;
            Some(self.tokens_processed as u64 * 1000 / exec)
        };
        TaskMetrics {
            queue_time_ms: self.queue_time_ms(),
            execution_time_ms: exec,
            total_time_ms: self.total_time_ms(now),
            tokens_processed: if self.tokens_processed > 0 { Some(self.tokens_processed) } else { None },
            tokens_per_second: tps,
            peak_memory_mb: None,
            peak_gpu_memory_mb: None,
        }
    }
}

/// Why the tracker refused a task.
#[derive(Debug, Clone, Copy, PartialEq, Eq, Structural)]
pub enum AdmissionError {
    /// Running plus queued tasks already fill every slot.
    CapacityExhausted,
    /// A task with the same id is still queued or running.
    DuplicateTask,
}

/// Number of queued or running records.
pub open spec fn count_active(s: Seq<ActiveTask>) -> nat
    decreases s.len(),
{
    if s.len() == 0 {
        0
    } else {
        count_active(s.drop_last()) + if s.last().state.is_active() { 1nat } else { 0nat }
    }
}

/// Number of records in state `st`.
pub open spec fn count_state(s: Seq<ActiveTask>, st: TaskState) -> nat
    decreases s.len(),
{
    if s.len() == 0 {
        0
    } else {
        count_state(s.drop_last(), st) + if s.last().state == st { 1nat } else { 0nat }
    }
}

/// Number of terminal records.
pub open spec fn count_terminal(s: Seq<ActiveTask>) -> nat
    decreases s.len(),
{
    if s.len() == 0 {
        0
    } else {
        count_terminal(s.drop_last()) + if s.last().state.is_terminal() { 1nat } else { 0nat }
    }
}

/// Position of the last record with this id, or -1.
pub open spec fn index_of(s: Seq<ActiveTask>, id: Seq<char>) -> int
    decreases s.len(),
{
    if s.len() == 0 {
        -1
    } else if s.last().id() == id {
        s.len() - 1
    } else {
        index_of(s.drop_last(), id)
    }
}

/// No two records share a task id.
pub open spec fn ids_unique(s: Seq<ActiveTask>) -> bool {
    forall|i: int, j: int| 0 <= i < s.len() && 0 <= j < s.len() && i != j ==> s[i].id() != s[j].id()
}

/// Ids of the active records, in table order.
pub open spec fn active_ids(s: Seq<ActiveTask>) -> Seq<Seq<char>>
    decreases s.len(),
{
    if s.len() == 0 {
        Seq::empty()
    } else if s.last().state.is_active() {
        active_ids(s.drop_last()).push(s.last().id())
    } else {
        active_ids(s.drop_last())
    }
}

/// A counter raised by one, held at its maximum.
pub open spec fn bump(n: u64) -> u64 {
    if n < u64::MAX { (n + 1) as u64 } else { n }
}

pub proof fn lemma_index_of(s: Seq<ActiveTask>, id: Seq<char>)
    ensures
        -1 <= index_of(s, id) < s.len(),
        index_of(s, id) >= 0 ==> s[index_of(s, id)].id() == id,
        index_of(s, id) == -1 ==> forall|j: int| 0 <= j < s.len() ==> s[j].id() != id,
    decreases s.len(),
{
    if s.len() > 0 {
        lemma_index_of(s.drop_last(), id);
        if s.last().id() != id {
            assert forall|j: int| 0 <= j < s.len() && index_of(s, id) == -1 implies s[j].id() != id by {
                if j < s.len() - 1 {
                    assert(s[j] == s.drop_last()[j]);
                }
            }
        }
    }
}

pub proof fn lemma_index_of_unique(s: Seq<ActiveTask>, j: int)
    requires
        ids_unique(s),
        0 <= j < s.len(),
    ensures
        index_of(s, s[j].id()) == j,
{
    lemma_index_of(s, s[j].id());
}

pub proof fn lemma_counts_bounded(s: Seq<ActiveTask>)
    ensures
        count_active(s) + count_terminal(s) == s.len(),
        count_active(s) == count_state(s, TaskState::Queued) + count_state(s, TaskState::Running),
    decreases s.len(),
{
    if s.len() > 0 {
        lemma_counts_bounded(s.drop_last());
    }
}

pub proof fn lemma_counts_push(s: Seq<ActiveTask>, x: ActiveTask)
    ensures
        count_active(s.push(x)) == count_active(s) + if x.state.is_active() { 1nat } else { 0nat },
        count_terminal(s.push(x)) == count_terminal(s) + if x.state.is_terminal() { 1nat } else { 0nat },
        forall|st: TaskState| #[trigger] count_state(s.push(x), st) == count_state(s, st) + if x.state == st { 1nat } else { 0nat },
        active_ids(s.push(x)) == if x.state.is_active() { active_ids(s).push(x.id()) } else { active_ids(s) },
{
    assert(s.push(x).drop_last() =~= s);
}

pub proof fn lemma_counts_update(s: Seq<ActiveTask>, i: int, x: ActiveTask)
    requires
        0 <= i < s.len(),
    ensures
        count_active(s.update(i, x)) + (if s[i].state.is_active() { 1nat } else { 0nat })
            == count_active(s) + (if x.state.is_active() { 1nat } else { 0nat }),
        count_terminal(s.update(i, x)) + (if s[i].state.is_terminal() { 1nat } else { 0nat })
            == count_terminal(s) + (if x.state.is_terminal() { 1nat } else { 0nat }),
        forall|st: TaskState| #[trigger] count_state(s.update(i, x), st) + (if s[i].state == st { 1nat } else { 0nat })
            == count_state(s, st) + (if x.state == st { 1nat } else { 0nat }),
    decreases s.len(),
{
    let t = s.update(i, x);
    if i == s.len() - 1 {
        assert(t.drop_last() =~= s.drop_last());
    } else {
        assert(t.drop_last() =~= s.drop_last().update(i, x));
        lemma_counts_update(s.drop_last(), i, x);
    }
    assert forall|st: TaskState| #[trigger] count_state(s.update(i, x), st) + (if s[i].state == st { 1nat } else { 0nat })
        == count_state(s, st) + (if x.state == st { 1nat } else { 0nat }) by {
        if i == s.len() - 1 {
            assert(t.drop_last() =~= s.drop_last());
        } else {
            assert(t.drop_last() =~= s.drop_last().update(i, x));
            assert(count_state(s.drop_last().update(i, x), st) + (if s[i].state == st { 1nat } else { 0nat })
                == count_state(s.drop_last(), st) + (if x.state == st { 1nat } else { 0nat }));
        }
    }
}

pub proof fn lemma_counts_remove(s: Seq<ActiveTask>, i: int)
    requires
        0 <= i < s.len(),
    ensures
        count_active(s.remove(i)) + (if s[i].state.is_active() { 1nat } else { 0nat }) == count_active(s),
        count_terminal(s.remove(i)) + (if s[i].state.is_terminal() { 1nat } else { 0nat }) == count_terminal(s),
        forall|st: TaskState| #[trigger] count_state(s.remove(i), st) + (if s[i].state == st { 1nat } else { 0nat })
            == count_state(s, st),
    decreases s.len(),
{
    let t = s.remove(i);
    if i == s.len() - 1 {
        assert(t =~= s.drop_last());
    } else {
        assert(t.drop_last() =~= s.drop_last().remove(i));
        lemma_counts_remove(s.drop_last(), i);
    }
    assert forall|st: TaskState| #[trigger] count_state(s.remove(i), st) + (if s[i].state == st { 1nat } else { 0nat })
        == count_state(s, st) by {
        if i == s.len() - 1 {
            assert(t =~= s.drop_last());
        } else {
            assert(t.drop_last() =~= s.drop_last().remove(i));
            assert(count_state(s.drop_last().remove(i), st) + (if s[i].state == st { 1nat } else { 0nat })
                == count_state(s.drop_last(), st));
        }
    }
}

/// Table of every task this worker has seen, with bounded admission.
pub struct TaskTracker {
    tasks: Vec<ActiveTask>,
    max_concurrent: usize,
    completed_count: u64,
    failed_count: u64,
}

impl TaskTracker {
    /// The records, in table order.
    pub closed spec fn entries(&self) -> Seq<ActiveTask> {
        self.tasks@
    }

    /// The admission bound.
    pub closed spec fn max_spec(&self) -> nat {
        self.max_concurrent as nat
    }

    /// Completions counted since creation.
    pub closed spec fn completed_spec(&self) -> u64 {
        self.completed_count
    }

    /// Failures counted since creation.
    pub closed spec fn failed_spec(&self) -> u64 {
        self.failed_count
    }

    /// Queued plus running records.
    pub open spec fn active_spec(&self) -> nat {
        count_active(self.entries())
    }

    /// Ids are unique, every record is consistent, and the active records
    /// never exceed the bound.
    pub open spec fn wf(&self) -> bool {
        &&& ids_unique(self.entries())
        &&& forall|i: int| 0 <= i < self.entries().len() ==> (#[trigger] self.entries()[i]).wf()
        &&& self.active_spec() <= self.max_spec()
    }

    /// The record with this id, if any.
    pub open spec fn lookup(&self, id: Seq<char>) -> Option<ActiveTask> {
        let i = index_of(self.entries(), id);
        if i >= 0 { Some(self.entries()[i]) } else { None }
    }

    /// Nothing changed but the table.
    pub open spec fn same_counters(&self, other: &TaskTracker) -> bool {
        &&& self.max_spec() == other.max_spec()
        &&& self.completed_spec() == other.completed_spec()
        &&& self.failed_spec() == other.failed_spec()
    }

    /// An empty tracker accepting `max_concurrent` tasks at a time.
    pub fn new(max_concurrent: usize) -> (r: Self)
        ensures
            r.wf(),
            r.entries() == Seq::<ActiveTask>::empty(),
            r.max_spec() == max_concurrent,
            r.completed_spec() == 0,
            r.failed_spec() == 0,
    {
        TaskTracker { tasks: Vec::new(), max_concurrent, completed_count: 0, failed_count: 0 }
    }

    /// Position of the record with this id.
    fn find(&self, task_id: &str) -> (r: Option<usize>)
        requires
            self.wf(),
        ensures
            match r {
                Some(i) => i == index_of(self.entries(), task_id@) && i < self.entries().len(),
                None => index_of(self.entries(), task_id@) == -1,
            },
    {
        let mut i: usize = 0;
        while i < self.tasks.len()
            invariant
                self.wf(),
                i <= self.tasks@.len(),
                forall|j: int| 0 <= j < i ==> self.tasks@[j].id() != task_id@,
            decreases self.tasks@.len() - i,
        {
            if crate::text::str_eq(self.tasks[i].assignment.task_id.as_str(), task_id) {
                proof { lemma_index_of_unique(self.tasks@, i as int); }
                return Some(i);
            }
            i += 1;
        }
        proof { lemma_index_of(self.tasks@, task_id@); }
        None
    }

    /// Number of queued or running tasks.
    fn active_count(&self) -> (r: usize)
        ensures
            r == self.active_spec(),
    {
        let mut n: usize = 0;
        let mut i: usize = 0;
        while i < self.tasks.len()
            invariant
                i <= self.tasks@.len(),
                n == count_active(self.tasks@.subrange(0, i as int)),
                n <= i,
            decreases self.tasks@.len() - i,
        {
            proof {
                assert(self.tasks@.subrange(0, i as int + 1).drop_last() =~= self.tasks@.subrange(0, i as int));
            }
            let st = self.tasks[i].state;
            if st == TaskState::Queued || st == TaskState::Running {
                n += 1;
            }
            i += 1;
        }
        assert(self.tasks@.subrange(0, i as int) =~= self.tasks@);
        n
    }

    /// Number of tasks in one state.
    fn state_count(&self, st: TaskState) -> (r: usize)
        ensures
            r == count_state(self.entries(), st),
    {
        let mut n: usize = 0;
        let mut i: usize = 0;
        while i < self.tasks.len()
            invariant
                i <= self.tasks@.len(),
                n == count_state(self.tasks@.subrange(0, i as int), st),
                n <= i,
            decreases self.tasks@.len() - i,
        {
            proof {
                assert(self.tasks@.subrange(0, i as int + 1).drop_last() =~= self.tasks@.subrange(0, i as int));
            }
            if self.tasks[i].state == st {
                n += 1;
            }
            i += 1;
        }
        assert(self.tasks@.subrange(0, i as int) =~= self.tasks@);
        n
    }

    /// Admits an assignment as a queued task. Refused, with nothing changed,
    /// when every slot is taken or when a task of the same id is still
    /// active; a finished task of the same id is replaced.
    pub fn add_task(&mut self, assignment: TaskAssignment, source: TaskSource, now: u64) -> (r: Result<(), AdmissionError>)
        requires
            old(self).wf(),
        ensures
            final(self).wf(),
            final(self).same_counters(old(self)),
            old(self).active_spec() >= old(self).max_spec() ==> r == Err::<(), AdmissionError>(AdmissionError::CapacityExhausted),
            old(self).active_spec() < old(self).max_spec() && old(self).lookup(assignment.task_id@) is Some
                && old(self).lookup(assignment.task_id@).unwrap().state.is_active()
                ==> r == Err::<(), AdmissionError>(AdmissionError::DuplicateTask),
            r is Ok <==> (old(self).active_spec() < old(self).max_spec() && !(old(self).lookup(assignment.task_id@) is Some
                && old(self).lookup(assignment.task_id@).unwrap().state.is_active())),
            r is Err ==> final(self).entries() == old(self).entries(),
            r is Ok ==> final(self).entries() == {
                let i = index_of(old(self).entries(), assignment.task_id@);
                let e = ActiveTask::fresh(assignment, source, now);
                if i >= 0 { old(self).entries().update(i, e) } else { old(self).entries().push(e) }
            },
    {
        let active = self.active_count();
        if active >= self.max_concurrent {
            return Err(AdmissionError::CapacityExhausted);
        }
        let ghost id = assignment.task_id@;
        let found = self.find(assignment.task_id.as_str());
        let entry = ActiveTask::new(assignment, source, now);
        match found {
            Some(i) => {
                if self.tasks[i].state == TaskState::Queued || self.tasks[i].state == TaskState::Running {
                    return Err(AdmissionError::DuplicateTask);
                }
                let ghost s0 = self.tasks@;
                proof {
                    lemma_counts_update(s0, i as int, entry);
                    lemma_index_of(s0, id);
                }
                self.tasks.set(i, entry);
                assert forall|a: int, b: int| 0 <= a < self.tasks@.len() && 0 <= b < self.tasks@.len() && a != b
                    implies self.tasks@[a].id() != self.tasks@[b].id() by {
                    assert(s0[i as int].id() == id);
                }
            },
            None => {
                let ghost s0 = self.tasks@;
                proof {
                    lemma_counts_push(s0, entry);
                    lemma_index_of(s0, id);
                }
                self.tasks.push(entry);
                assert forall|a: int, b: int| 0 <= a < self.tasks@.len() && 0 <= b < self.tasks@.len() && a != b
                    implies self.tasks@[a].id() != self.tasks@[b].id() by {
                    if a < s0.len() && b < s0.len() {
                        assert(self.tasks@[a] == s0[a] && self.tasks@[b] == s0[b]);
                    } else if a < s0.len() {
                        assert(self.tasks@[a] == s0[a]);
                    } else {
                        assert(self.tasks@[b] == s0[b]);
                    }
                }
                assert forall|k: int| 0 <= k < self.tasks@.len() implies (#[trigger] self.tasks@[k]).wf() by {
                    if k < s0.len() { assert(self.tasks@[k] == s0[k]); }
                }
            },
        }
        Ok(())
    }
}


/// The record once execution has started at `now`.
pub open spec fn started(e: ActiveTask, now: u64) -> ActiveTask {
    ActiveTask { state: TaskState::Running, started_at: Some(now), ..e }
}

/// The record once it finished in `st` at `now`.
pub open spec fn finished(e: ActiveTask, st: TaskState, now: u64) -> ActiveTask {
    ActiveTask { state: st, completed_at: Some(now), ..e }
}

/// The record once it failed at `now` with `error`.
pub open spec fn failed(e: ActiveTask, error: String, now: u64) -> ActiveTask {
    ActiveTask { state: TaskState::Failed, completed_at: Some(now), error: Some(error), ..e }
}

/// The record once cancelled at `now`: the signal is raised.
pub open spec fn cancelled(e: ActiveTask, now: u64) -> ActiveTask {
    ActiveTask { state: TaskState::Cancelled, completed_at: Some(now), cancel_signalled: true, ..e }
}

/// The record once its result has been handed out.
pub open spec fn reported(e: ActiveTask) -> ActiveTask {
    ActiveTask { result_reported: true, ..e }
}

/// One change of state of a record.
enum Step {
    Start(u64),
    Complete(u64),
    Fail(String, u64),
    Cancel(u64),
    Report,
}

spec fn apply_step(e: ActiveTask, step: Step) -> ActiveTask {
    match step {
        Step::Start(now) => started(e, now),
        Step::Complete(now) => finished(e, TaskState::Completed, now),
        Step::Fail(err, now) => failed(e, err, now),
        Step::Cancel(now) => cancelled(e, now),
        Step::Report => reported(e),
    }
}

impl TaskTracker {
    /// Applies one change to the record at `i`; the result must be
    /// consistent and hold a slot only if the old record did.
    fn apply_at(&mut self, i: usize, step: Step)
        requires
            old(self).wf(),
            i < old(self).entries().len(),
            apply_step(old(self).entries()[i as int], step).wf(),
            apply_step(old(self).entries()[i as int], step).state.is_active()
                ==> old(self).entries()[i as int].state.is_active(),
        ensures
            final(self).wf(),
            final(self).same_counters(old(self)),
            final(self).entries() == old(self).entries().update(i as int, apply_step(old(self).entries()[i as int], step)),
    {
        let ghost s0 = self.tasks@;
        let ghost e1 = apply_step(s0[i as int], step);
        proof { lemma_counts_update(s0, i as int, e1); }
        let mut e = self.tasks.remove(i);
        match step {
            Step::Start(now) => {
                e.state = TaskState::Running;
                e.started_at = Some(now);
            },
            Step::Complete(now) => {
                e.state = TaskState::Completed;
                e.completed_at = Some(now);
            },
            Step::Fail(err, now) => {
                e.state = TaskState::Failed;
                e.completed_at = Some(now);
                e.error = Some(err);
            },
            Step::Cancel(now) => {
                e.state = TaskState::Cancelled;
                e.completed_at = Some(now);
                e.cancel_signalled = true;
            },
            Step::Report => {
                e.result_reported = true;
            },
        }
        assert(e == e1);
        self.tasks.insert(i, e);
        assert(self.tasks@ =~= s0.update(i as int, e1));
        assert forall|a: int, b: int| 0 <= a < self.tasks@.len() && 0 <= b < self.tasks@.len() && a != b
            implies self.tasks@[a].id() != self.tasks@[b].id() by {
            assert(self.tasks@[a].id() == s0[a].id());
            assert(self.tasks@[b].id() == s0[b].id());
        }
    }

    /// Queued to running. Any other transition is dropped and answered
    /// with `false`.
    pub fn mark_running(&mut self, task_id: &str, now: u64) -> (r: bool)
        requires
            old(self).wf(),
        ensures
            final(self).wf(),
            final(self).same_counters(old(self)),
            r == (old(self).lookup(task_id@) is Some && old(self).lookup(task_id@).unwrap().state == TaskState::Queued),
            r ==> final(self).entries() == old(self).entries().update(
                index_of(old(self).entries(), task_id@), started(old(self).lookup(task_id@).unwrap(), now)),
            !r ==> final(self).entries() == old(self).entries(),
    {
        match self.find(task_id) {
            Some(i) => {
                if self.tasks[i].state != TaskState::Queued {
                    return false;
                }
                self.apply_at(i, Step::Start(now));
                true
            },
            None => false,
        }
    }

    /// Running to completed; counts one completion.
    pub fn mark_completed(&mut self, task_id: &str, now: u64) -> (r: bool)
        requires
            old(self).wf(),
        ensures
            final(self).wf(),
            final(self).max_spec() == old(self).max_spec(),
            final(self).failed_spec() == old(self).failed_spec(),
            r == (old(self).lookup(task_id@) is Some && old(self).lookup(task_id@).unwrap().state == TaskState::Running),
            r ==> final(self).entries() == old(self).entries().update(index_of(old(self).entries(), task_id@),
                finished(old(self).lookup(task_id@).unwrap(), TaskState::Completed, now)),
            r ==> final(self).completed_spec() == bump(old(self).completed_spec()),
            !r ==> final(self).entries() == old(self).entries() && final(self).completed_spec() == old(self).completed_spec(),
    {
        match self.find(task_id) {
            Some(i) => {
                if self.tasks[i].state != TaskState::Running {
                    return false;
                }
                self.apply_at(i, Step::Complete(now));
                self.completed_count = self.completed_count.saturating_add(1);
                true
            },
            None => false,
        }
    }

    /// Running to failed with `error`; counts one failure.
    pub fn mark_failed(&mut self, task_id: &str, error: String, now: u64) -> (r: bool)
        requires
            old(self).wf(),
        ensures
            final(self).wf(),
            final(self).max_spec() == old(self).max_spec(),
            final(self).completed_spec() == old(self).completed_spec(),
            r == (old(self).lookup(task_id@) is Some && old(self).lookup(task_id@).unwrap().state == TaskState::Running),
            r ==> final(self).entries() == old(self).entries().update(index_of(old(self).entries(), task_id@),
                failed(old(self).lookup(task_id@).unwrap(), error, now)),
            r ==> final(self).failed_spec() == bump(old(self).failed_spec()),
            !r ==> final(self).entries() == old(self).entries() && final(self).failed_spec() == old(self).failed_spec(),
    {
        match self.find(task_id) {
            Some(i) => {
                if self.tasks[i].state != TaskState::Running {
                    return false;
                }
                self.apply_at(i, Step::Fail(error, now));
                self.failed_count = self.failed_count.saturating_add(1);
                true
            },
            None => false,
        }
    }

    /// Cancels a queued or running task: raises its signal and moves it to
    /// cancelled. On any other task answers `false` and changes nothing.
    pub fn cancel_task(&mut self, task_id: &str, now: u64) -> (r: bool)
        requires
            old(self).wf(),
        ensures
            final(self).wf(),
            final(self).same_counters(old(self)),
            r == (old(self).lookup(task_id@) is Some && old(self).lookup(task_id@).unwrap().state.is_active()),
            r ==> final(self).entries() == old(self).entries().update(
                index_of(old(self).entries(), task_id@), cancelled(old(self).lookup(task_id@).unwrap(), now)),
            !r ==> final(self).entries() == old(self).entries(),
    {
        match self.find(task_id) {
            Some(i) => {
                if self.tasks[i].state != TaskState::Queued && self.tasks[i].state != TaskState::Running {
                    return false;
                }
                self.apply_at(i, Step::Cancel(now));
                true
            },
            None => false,
        }
    }

    /// Marks the result of a finished task as handed out. Answers `false`,
    /// changing nothing, for an unknown or unfinished task or one whose
    /// result went out already.
    pub fn mark_reported(&mut self, task_id: &str) -> (r: bool)
        requires
            old(self).wf(),
        ensures
            final(self).wf(),
            final(self).same_counters(old(self)),
            r == (old(self).lookup(task_id@) is Some && old(self).lookup(task_id@).unwrap().state.is_terminal()
                && !old(self).lookup(task_id@).unwrap().result_reported),
            r ==> final(self).entries() == old(self).entries().update(
                index_of(old(self).entries(), task_id@), reported(old(self).lookup(task_id@).unwrap())),
            !r ==> final(self).entries() == old(self).entries(),
    {
        match self.find(task_id) {
            Some(i) => {
                let st = self.tasks[i].state;
                if st == TaskState::Queued || st == TaskState::Running || self.tasks[i].result_reported {
                    return false;
                }
                self.apply_at(i, Step::Report);
                true
            },
            None => false,
        }
    }

    /// The record of a task, if it is known.
    pub fn find_record(&self, task_id: &str) -> (r: Option<&ActiveTask>)
        requires
            self.wf(),
        ensures
            match r {
                Some(e) => self.lookup(task_id@) == Some(*e),
                None => self.lookup(task_id@) is None,
            },
    {
        match self.find(task_id) {
            Some(i) => Some(&self.tasks[i]),
            None => None,
        }
    }

    /// Metrics of a task as of `now`, if it is known.
    pub fn get_metrics(&self, task_id: &str, now: u64) -> (r: Option<TaskMetrics>)
        requires
            self.wf(),
        ensures
            r == match self.lookup(task_id@) {
                Some(e) => Some(e.metrics_spec(now)),
                None => None::<TaskMetrics>,
            },
    {
        match self.find(task_id) {
            Some(i) => Some(self.tasks[i].metrics(now)),
            None => None,
        }
    }

    /// State of a task, if it is known.
    pub fn task_state(&self, task_id: &str) -> (r: Option<TaskState>)
        requires
            self.wf(),
        ensures
            r == match self.lookup(task_id@) {
                Some(e) => Some(e.state),
                None => None::<TaskState>,
            },
    {
        match self.find(task_id) {
            Some(i) => Some(self.tasks[i].state),
            None => None,
        }
    }

    /// Ids of the queued and running tasks, in table order.
    pub fn active_task_ids(&self) -> (r: Vec<String>)
        ensures
            r@.map_values(|s: String| s@) == active_ids(self.entries()),
    {
        let mut out: Vec<String> = Vec::new();
        let mut i: usize = 0;
        while i < self.tasks.len()
            invariant
                i <= self.tasks@.len(),
                out@.map_values(|s: String| s@) == active_ids(self.tasks@.subrange(0, i as int)),
            decreases self.tasks@.len() - i,
        {
            proof {
                assert(self.tasks@.subrange(0, i as int + 1).drop_last() =~= self.tasks@.subrange(0, i as int));
            }
            let st = self.tasks[i].state;
            if st == TaskState::Queued || st == TaskState::Running {
                let id = self.tasks[i].assignment.task_id.clone();
                let ghost before = out@;
                out.push(id);
                assert(out@.map_values(|s: String| s@) =~= before.map_values(|s: String| s@).push(id@));
            }
            i += 1;
        }
        assert(self.tasks@.subrange(0, i as int) =~= self.tasks@);
        out
    }

    /// Number of running tasks.
    pub fn running_count(&self) -> (r: usize)
        ensures
            r == count_state(self.entries(), TaskState::Running),
    {
        self.state_count(TaskState::Running)
    }

    /// Number of queued tasks.
    pub fn queued_count(&self) -> (r: usize)
        ensures
            r == count_state(self.entries(), TaskState::Queued),
    {
        self.state_count(TaskState::Queued)
    }

    /// Whether a new task would be accepted on capacity.
    pub fn can_accept(&self) -> (r: bool)
        ensures
            r == (self.active_spec() < self.max_spec()),
    {
        self.active_count() < self.max_concurrent
    }

    /// The admission bound.
    pub fn max_concurrent(&self) -> (r: usize)
        ensures
            r == self.max_spec(),
    {
        self.max_concurrent
    }

    /// Completions counted since creation.
    pub fn total_completed(&self) -> (r: u64)
        ensures
            r == self.completed_spec(),
    {
        self.completed_count
    }

    /// Failures counted since creation.
    pub fn total_failed(&self) -> (r: u64)
        ensures
            r == self.failed_spec(),
    {
        self.failed_count
    }
}

/// When a record finished; zero for one that has not.
pub open spec fn done_at(e: ActiveTask) -> u64 {
    match e.completed_at {
        Some(t) => t,
        None => 0,
    }
}

proof fn lemma_remove_keeps(s: Seq<ActiveTask>, i: int)
    requires
        0 <= i < s.len(),
    ensures
        forall|k: int| 0 <= k < s.len() && k != i ==> s.remove(i).contains(#[trigger] s[k]),
        forall|x: ActiveTask| #[trigger] s.remove(i).contains(x) ==> s.contains(x),
{
    let t = s.remove(i);
    assert forall|k: int| 0 <= k < s.len() && k != i implies t.contains(#[trigger] s[k]) by {
        if k < i {
            assert(t[k] == s[k]);
        } else {
            assert(t[k - 1] == s[k]);
        }
    }
    assert forall|x: ActiveTask| #[trigger] t.contains(x) implies s.contains(x) by {
        let k = choose|k: int| 0 <= k < t.len() && t[k] == x;
        if k < i {
            assert(s[k] == x);
        } else {
            assert(s[k + 1] == x);
        }
    }
}

impl TaskTracker {
    /// Position of a terminal record that finished first.
    fn oldest_terminal(&self) -> (r: usize)
        requires
            count_terminal(self.entries()) > 0,
        ensures
            r < self.entries().len(),
            self.entries()[r as int].state.is_terminal(),
            forall|k: int| 0 <= k < self.entries().len() && (#[trigger] self.entries()[k]).state.is_terminal()
                ==> done_at(self.entries()[r as int]) <= done_at(self.entries()[k]),
    {
        let mut best: Option<usize> = None;
        let mut i: usize = 0;
        while i < self.tasks.len()
            invariant
                i <= self.tasks@.len(),
                match best {
                    Some(b) => b < i && self.tasks@[b as int].state.is_terminal()
                        && forall|k: int| 0 <= k < i && (#[trigger] self.tasks@[k]).state.is_terminal()
                            ==> done_at(self.tasks@[b as int]) <= done_at(self.tasks@[k]),
                    None => forall|k: int| 0 <= k < i ==> !(#[trigger] self.tasks@[k]).state.is_terminal(),
                },
            decreases self.tasks@.len() - i,
        {
            let st = self.tasks[i].state;
            if st != TaskState::Queued && st != TaskState::Running {
                let t = match self.tasks[i].completed_at { Some(t) => t, None => 0 };
                match best {
                    Some(b) => {
                        let bt = match self.tasks[b].completed_at { Some(t) => t, None => 0 };
                        if t < bt {
                            best = Some(i);
                        }
                    },
                    None => {
                        best = Some(i);
                    },
                }
            }
            i += 1;
        }
        match best {
            Some(b) => b,
            None => {
                proof { lemma_no_terminal(self.tasks@); }
                0
            },
        }
    }

    /// Keeps only the `keep_count` terminal records that finished last;
    /// queued and running records all stay.
    pub fn cleanup_old_tasks(&mut self, keep_count: usize)
        requires
            old(self).wf(),
        ensures
            final(self).wf(),
            final(self).same_counters(old(self)),
            count_terminal(final(self).entries()) == if count_terminal(old(self).entries()) <= keep_count {
                count_terminal(old(self).entries())
            } else {
                keep_count as nat
            },
            forall|x: ActiveTask| #[trigger] final(self).entries().contains(x) ==> old(self).entries().contains(x),
            forall|k: int| 0 <= k < old(self).entries().len() && (#[trigger] old(self).entries()[k]).state.is_active()
                ==> final(self).entries().contains(old(self).entries()[k]),
            forall|k: int, m: int| 0 <= k < old(self).entries().len() && 0 <= m < final(self).entries().len()
                && (#[trigger] old(self).entries()[k]).state.is_terminal()
                && !final(self).entries().contains(old(self).entries()[k])
                && (#[trigger] final(self).entries()[m]).state.is_terminal()
                ==> done_at(old(self).entries()[k]) <= done_at(final(self).entries()[m]),
    {
        let ghost s0 = self.tasks@;
        let ghost mut removed: Seq<ActiveTask> = Seq::empty();
        proof { lemma_counts_bounded(self.tasks@); }
        let mut terminal: usize = self.tasks.len() - self.active_count();
        while terminal > keep_count
            invariant
                self.wf(),
                self.same_counters(old(self)),
                terminal == count_terminal(self.tasks@),
                forall|x: ActiveTask| #[trigger] self.tasks@.contains(x) ==> s0.contains(x),
                forall|k: int| 0 <= k < s0.len() ==> self.tasks@.contains(#[trigger] s0[k]) || removed.contains(s0[k]),
                forall|x: ActiveTask| #[trigger] removed.contains(x) ==> x.state.is_terminal()
                    && !self.tasks@.contains(x)
                    && forall|m: int| 0 <= m < self.tasks@.len() && (#[trigger] self.tasks@[m]).state.is_terminal()
                        ==> done_at(x) <= done_at(self.tasks@[m]),
                count_terminal(old(self).entries()) >= keep_count ==> terminal >= keep_count,
                count_terminal(old(self).entries()) < keep_count ==> terminal == count_terminal(old(self).entries()),
            decreases terminal,
        {
            let i = self.oldest_terminal();
            let ghost cur = self.tasks@;
            let ghost x = cur[i as int];
            proof {
                lemma_counts_remove(cur, i as int);
                lemma_remove_keeps(cur, i as int);
            }
            self.tasks.remove(i);
            proof {
                let t = self.tasks@;
                assert forall|a: int, b: int| 0 <= a < t.len() && 0 <= b < t.len() && a != b
                    implies t[a].id() != t[b].id() by {
                    let a1 = if a < i { a } else { a + 1 };
                    let b1 = if b < i { b } else { b + 1 };
                    assert(t[a] == cur[a1] && t[b] == cur[b1]);
                }
                assert forall|k: int| 0 <= k < t.len() implies (#[trigger] t[k]).wf() by {
                    let k1 = if k < i { k } else { k + 1 };
                    assert(t[k] == cur[k1]);
                }
                assert(!t.contains(x)) by {
                    if t.contains(x) {
                        let k = choose|k: int| 0 <= k < t.len() && t[k] == x;
                        let k1 = if k < i { k } else { k + 1 };
                        assert(t[k] == cur[k1]);
                        assert(cur[k1].id() == cur[i as int].id());
                    }
                }
                let removed1 = removed.push(x);
                assert forall|k: int| 0 <= k < s0.len() implies t.contains(#[trigger] s0[k]) || removed1.contains(s0[k]) by {
                    if cur.contains(s0[k]) {
                        let k2 = choose|k2: int| 0 <= k2 < cur.len() && cur[k2] == s0[k];
                        if k2 == i {
                            assert(removed1[removed.len() as int] == s0[k]);
                        } else {
                            assert(t.contains(cur[k2]));
                        }
                    } else {
                        assert(removed.contains(s0[k]));
                        let k3 = choose|k3: int| 0 <= k3 < removed.len() && removed[k3] == s0[k];
                        assert(removed1[k3] == s0[k]);
                    }
                }
                assert forall|y: ActiveTask| #[trigger] removed1.contains(y) implies y.state.is_terminal()
                    && !t.contains(y)
                    && forall|m: int| 0 <= m < t.len() && (#[trigger] t[m]).state.is_terminal()
                        ==> done_at(y) <= done_at(t[m]) by {
                    let k = choose|k: int| 0 <= k < removed1.len() && removed1[k] == y;
                    if k < removed.len() {
                        assert(removed.contains(y));
                    }
                    assert forall|m: int| 0 <= m < t.len() && (#[trigger] t[m]).state.is_terminal()
                        implies done_at(y) <= done_at(t[m]) by {
                        let m1 = if m < i { m } else { m + 1 };
                        assert(t[m] == cur[m1]);
                    }
                }
                removed = removed1;
            }
            terminal = terminal - 1;
        }
        proof {
            let t = self.tasks@;
            assert forall|k: int| 0 <= k < s0.len() && (#[trigger] s0[k]).state.is_active()
                implies t.contains(s0[k]) by {
                if !t.contains(s0[k]) {
                    assert(removed.contains(s0[k]));
                }
            }
            assert forall|k: int, m: int| 0 <= k < s0.len() && 0 <= m < t.len()
                && (#[trigger] s0[k]).state.is_terminal() && !t.contains(s0[k])
                && (#[trigger] t[m]).state.is_terminal()
                implies done_at(s0[k]) <= done_at(t[m]) by {
                assert(removed.contains(s0[k]));
            }
        }
    }
}

proof fn lemma_no_terminal(s: Seq<ActiveTask>)
    requires
        forall|k: int| 0 <= k < s.len() ==> !(#[trigger] s[k]).state.is_terminal(),
    ensures
        count_terminal(s) == 0,
    decreases s.len(),
{
    if s.len() > 0 {
        lemma_no_terminal(s.drop_last());
    }
}

/// In every well-formed tracker, running plus queued tasks never exceed the
/// admission bound; every operation keeps the tracker well formed.
pub proof fn lemma_running_plus_queued_bounded(t: &TaskTracker)
    requires
        t.wf(),
    ensures
        count_state(t.entries(), TaskState::Running) + count_state(t.entries(), TaskState::Queued) <= t.max_spec(),
{
    lemma_counts_bounded(t.entries());
}

impl Default for TaskTracker {
    fn default() -> (r: Self)
        ensures
            r.wf(),
            r.entries() == Seq::<ActiveTask>::empty(),
            r.max_spec() == 4,
            r.completed_spec() == 0,
            r.failed_spec() == 0,
    {
        TaskTracker::new(4)
    }
}

} // verus!
