//! Decisions of the supervising event loop: where each task result goes,
//! the worker status that follows, and the values built for the HTTP task
//! API. The loop itself, its timers and its I/O are run by the caller.

use vstd::prelude::*;
use crate::error::ErrorCode;
use crate::backend::{pick_backend, selection_order, BackendType};
use crate::executor::{SubmitError, TaskError, TaskExecutor, TaskResult};
use crate::tracker::TaskSource;
use crate::groups::{group_index, member_index, members_replaced, GroupManager, GroupRole};
use crate::peer::{peer_index, with_status, PeerRegistry};
use crate::protocol::{PeerDirectoryEntry, TaskAssignment, TaskPriority, WorkerStatus};
use crate::peer::PeerInfo;
use crate::text::str_eq;
use crate::tracker::TaskMetrics;
use crate::types::{FinishReason, TaskType, TokenUsage};

verus! {

/// Seconds between polls of the HTTP task API.
pub const TASK_POLL_INTERVAL_SECS: u64 = 5;
/// Seconds between health checks.
pub const HEALTH_CHECK_INTERVAL_SECS: u64 = 60;
/// Seconds between clean-ups of the task table.
pub const CLEANUP_INTERVAL_SECS: u64 = 300;
/// Finished tasks kept by each clean-up.
pub const CLEANUP_KEEP_TASKS: usize = 100;
/// Timeout of a task taken from the HTTP task API.
pub const HTTP_TASK_TIMEOUT_SECS: u64 = 300;

/// Where a task result goes.
#[derive(Debug, Clone, Copy, PartialEq, Eq, Structural)]
pub enum ResultRoute {
    /// Posted to the HTTP task API: the task came from a poll.
    Http,
    /// Sent over the coordinator session.
    Session,
}

/// Ids of the tasks taken from the HTTP task API whose results are due.
pub struct HttpPolledTasks {
    ids: Vec<String>,
}

impl HttpPolledTasks {
    /// The ids, as text.
    pub closed spec fn ids_spec(&self) -> Seq<Seq<char>> {
        self.ids@.map_values(|s: String| s@)
    }

    /// Each id at most once.
    pub open spec fn wf(&self) -> bool {
        self.ids_spec().no_duplicates()
    }

    /// No tasks yet.
    pub fn new() -> (r: Self)
        ensures
            r.wf(),
            r.ids_spec() == Seq::<Seq<char>>::empty(),
    {
        let r = HttpPolledTasks { ids: Vec::new() };
        assert(r.ids_spec() =~= Seq::<Seq<char>>::empty());
        r
    }

    fn position(&self, id: &str) -> (r: Option<usize>)
        ensures
            match r {
                Some(i) => i < self.ids_spec().len() && self.ids_spec()[i as int] == id@,
                None => !self.ids_spec().contains(id@),
            },
    {
        let mut i: usize = 0;
        while i < self.ids.len()
            invariant
                i <= self.ids@.len(),
                forall|j: int| 0 <= j < i ==> self.ids@[j]@ != id@,
            decreases self.ids@.len() - i,
        {
            if str_eq(self.ids[i].as_str(), id) {
                return Some(i);
            }
            i += 1;
        }
        proof {
            if self.ids_spec().contains(id@) {
                let j = choose|j: int| 0 <= j < self.ids_spec().len() && #[trigger] self.ids_spec()[j] == id@;
                assert(self.ids@[j]@ == id@);
            }
        }
        None
    }

    /// Whether a task's result is due over HTTP.
    pub fn contains(&self, id: &str) -> (r: bool)
        ensures
            r == self.ids_spec().contains(id@),
    {
        match self.position(id) {
            Some(i) => {
                assert(self.ids_spec()[i as int] == id@);
                true
            },
            None => false,
        }
    }

    /// Records a task taken from the HTTP task API.
    pub fn insert(&mut self, id: &str)
        requires
            old(self).wf(),
        ensures
            final(self).wf(),
            final(self).ids_spec() == if old(self).ids_spec().contains(id@) {
                old(self).ids_spec()
            } else {
                old(self).ids_spec().push(id@)
            },
    {
        if self.position(id).is_some() {
            return;
        }
        let ghost before = self.ids@;
        self.ids.push(id.to_owned());
        assert(self.ids_spec() =~= before.map_values(|s: String| s@).push(id@));
    }

    /// Forgets a task; answers whether it was there.
    pub fn remove(&mut self, id: &str) -> (r: bool)
        requires
            old(self).wf(),
        ensures
            final(self).wf(),
            r == old(self).ids_spec().contains(id@),
            !final(self).ids_spec().contains(id@),
            forall|x: Seq<char>| x != id@ ==> (final(self).ids_spec().contains(x) <==> old(self).ids_spec().contains(x)),
    {
        match self.position(id) {
            Some(i) => {
                let ghost before = self.ids_spec();
                self.ids.remove(i);
                proof {
                    let after = self.ids_spec();
                    assert(after =~= before.remove(i as int));
                    assert forall|a: int, b: int| 0 <= a < after.len() && 0 <= b < after.len() && a != b
                        implies after[a] != after[b] by {
                        let a1 = if a < i { a } else { a + 1 };
                        let b1 = if b < i { b } else { b + 1 };
                        assert(after[a] == before[a1] && after[b] == before[b1]);
                    }
                    assert forall|x: Seq<char>| x != id@ implies (after.contains(x) <==> before.contains(x)) by {
                        if before.contains(x) {
                            let k = choose|k: int| 0 <= k < before.len() && before[k] == x;
                            if k < i { assert(after[k] == x); } else { assert(k != i); assert(after[k - 1] == x); }
                        }
                        if after.contains(x) {
                            let k = choose|k: int| 0 <= k < after.len() && after[k] == x;
                            if k < i { assert(before[k] == x); } else { assert(before[k + 1] == x); }
                        }
                    }
                    if after.contains(id@) {
                        let k = choose|k: int| 0 <= k < after.len() && after[k] == id@;
                        let k1 = if k < i { k } else { k + 1 };
                        assert(before[k1] == id@ && before[i as int] == id@);
                    }
                }
                true
            },
            None => false,
        }
    }

    /// Routes the result of task `id`, once: over HTTP when the task came
    /// from a poll (and the id is then forgotten), else over the session.
    pub fn route_result(&mut self, id: &str) -> (r: ResultRoute)
        requires
            old(self).wf(),
        ensures
            final(self).wf(),
            r == if old(self).ids_spec().contains(id@) { ResultRoute::Http } else { ResultRoute::Session },
            !final(self).ids_spec().contains(id@),
            forall|x: Seq<char>| x != id@ ==> (final(self).ids_spec().contains(x) <==> old(self).ids_spec().contains(x)),
    {
        if self.remove(id) { ResultRoute::Http } else { ResultRoute::Session }
    }
}

/// The status to report after a result went out: ready once no task is
/// queued or running.
pub fn status_after_result(running: usize, queued: usize) -> (r: Option<WorkerStatus>)
    ensures
        r == if running == 0 && queued == 0 { Some(WorkerStatus::Ready) } else { None::<WorkerStatus> },
{
    if running == 0 && queued == 0 { Some(WorkerStatus::Ready) } else { None }
}

/// The body of a completion posted to the HTTP task API.
#[derive(Debug, Clone)]
pub struct HttpCompletion {
    pub worker_id: String,
    pub task_id: String,
    pub output: String,
    pub finish_reason: FinishReason,
    pub token_usage: TokenUsage,
    pub execution_time_ms: u64,
    pub error: Option<String>,
}

/// Token usage reported for `t` processed tokens: half (rounded down) for
/// the prompt, the rest for the completion.
pub open spec fn split_usage(t: u32) -> TokenUsage {
    TokenUsage { prompt_tokens: t / 2, completion_tokens: ((t as int + 1) / 2) as u32, total_tokens: t }
}

/// Builds the completion of an HTTP-polled task from its result.
pub fn http_completion(result: &TaskResult<String>, worker_id: &str) -> (r: HttpCompletion)
    ensures
        r.worker_id@ == worker_id@,
        r.task_id@ == result.task_id@,
        r.output@ == match result.output { Some(o) => o@, None => Seq::<char>::empty() },
        r.finish_reason == if result.success { FinishReason::Stop } else { FinishReason::Error },
        r.token_usage == split_usage(match result.metrics.tokens_processed { Some(t) => t, None => 0 }),
        r.execution_time_ms == result.metrics.execution_time_ms,
        r.error == match result.error { Some(e) => Some(e.message), None => None::<String> },
{
    let output = match &result.output {
        Some(o) => o.clone(),
        None => String::new(),
    };
    let t: u32 = match result.metrics.tokens_processed {
        Some(t) => t,
        None => 0,
    };
    let completion: u32 = ((t as u64 + 1) / 2) as u32;
    let error = match &result.error {
        Some(e) => Some(e.message.clone()),
        None => None,
    };
    HttpCompletion {
        worker_id: worker_id.to_owned(),
        task_id: result.task_id.clone(),
        output,
        finish_reason: if result.success { FinishReason::Stop } else { FinishReason::Error },
        token_usage: TokenUsage { prompt_tokens: t / 2, completion_tokens: completion, total_tokens: t },
        execution_time_ms: result.metrics.execution_time_ms,
        error,
    }
}

/// Metrics of a task that never ran.
pub open spec fn zero_metrics() -> TaskMetrics {
    TaskMetrics {
        queue_time_ms: 0,
        execution_time_ms: 0,
        total_time_ms: 0,
        tokens_processed: None,
        tokens_per_second: None,
        peak_memory_mb: None,
        peak_gpu_memory_mb: None,
    }
}

impl SubmitError {
    /// The error code a refusal is reported with.
    pub open spec fn code_spec(self) -> ErrorCode {
        match self {
            SubmitError::NotSupported => ErrorCode::NotSupported,
            _ => ErrorCode::ResourceMemory,
        }
    }

    pub open spec fn message_spec(self) -> Seq<char> {
        match self {
            SubmitError::CapacityExhausted => "Resource limit exceeded: Maximum concurrent tasks reached"@,
            SubmitError::NotSupported => "Not supported: Task type not supported by any loaded backend"@,
            SubmitError::DuplicateTask => "Resource limit exceeded: Failed to add task to tracker"@,
        }
    }

    /// A message for the coordinator.
    pub fn message(&self) -> (r: &'static str)
        ensures
            r@ == self.message_spec(),
    {
        match self {
            SubmitError::CapacityExhausted => "Resource limit exceeded: Maximum concurrent tasks reached",
            SubmitError::NotSupported => "Not supported: Task type not supported by any loaded backend",
            SubmitError::DuplicateTask => "Resource limit exceeded: Failed to add task to tracker",
        }
    }
}

/// The result sent for an assignment that was refused at submission: a
/// failure that is not retryable, with no output and zero metrics.
pub fn refusal_result<O>(task_id: String, worker_id: String, err: SubmitError) -> (r: TaskResult<O>)
    ensures
        r.task_id@ == task_id@,
        r.worker_id@ == worker_id@,
        !r.success,
        r.output is None,
        r.error is Some,
        r.error.unwrap().code@ == err.code_spec().text(),
        r.error.unwrap().message@ == err.message_spec(),
        !r.error.unwrap().retryable,
        r.error.unwrap().details is None,
        r.metrics == zero_metrics(),
{
    let code = match err {
        SubmitError::NotSupported => ErrorCode::NotSupported,
        _ => ErrorCode::ResourceMemory,
    };
    TaskResult {
        task_id,
        worker_id,
        success: false,
        output: None,
        error: Some(TaskError { code: code.as_str(), message: err.message().to_owned(), retryable: false, details: None }),
        metrics: TaskMetrics {
            queue_time_ms: 0,
            execution_time_ms: 0,
            total_time_ms: 0,
            tokens_processed: None,
            tokens_per_second: None,
            peak_memory_mb: None,
            peak_gpu_memory_mb: None,
        },
    }
}

/// The priority a polled task names; anything else is normal.
pub open spec fn priority_of_wire(s: Option<Seq<char>>) -> TaskPriority {
    match s {
        Some(p) => if p == "CRITICAL"@ {
            TaskPriority::Critical
        } else if p == "HIGH"@ {
            TaskPriority::High
        } else if p == "LOW"@ {
            TaskPriority::Low
        } else {
            TaskPriority::Normal
        },
        None => TaskPriority::Normal,
    }
}

/// The priority a polled task names.
pub fn priority_from_wire(s: Option<&str>) -> (r: TaskPriority)
    ensures
        r == priority_of_wire(match s { Some(p) => Some(p@), None => None::<Seq<char>> }),
{
    match s {
        Some(p) => if str_eq(p, "CRITICAL") {
            TaskPriority::Critical
        } else if str_eq(p, "HIGH") {
            TaskPriority::High
        } else if str_eq(p, "LOW") {
            TaskPriority::Low
        } else {
            TaskPriority::Normal
        },
        None => TaskPriority::Normal,
    }
}

/// The assignment made of a polled text-completion task; the model
/// defaults to `default`.
pub fn polled_assignment(task_id: &str, model: Option<&str>, priority: TaskPriority) -> (r: TaskAssignment)
    ensures
        r.task_id@ == task_id@,
        r.model_id@ == match model { Some(m) => m@, None => "default"@ },
        r.priority == priority,
        r.task_type == TaskType::TextCompletion,
        r.timeout_secs == HTTP_TASK_TIMEOUT_SECS,
        r.block_id is None && r.day_id is None,
        !r.is_canary && r.expected_hash is None,
{
    let model_id = match model {
        Some(m) => m.to_owned(),
        None => "default".to_owned(),
    };
    TaskAssignment {
        task_id: task_id.to_owned(),
        block_id: None,
        day_id: None,
        priority,
        model_id,
        task_type: TaskType::TextCompletion,
        is_canary: false,
        expected_hash: None,
        timeout_secs: HTTP_TASK_TIMEOUT_SECS,
    }
}

/// The canonical message signed for self-registration.
pub open spec fn registration_message_spec(account_id: Seq<char>, timestamp: Seq<char>) -> Seq<char> {
    "AI4ALL:v1:"@ + account_id + ":"@ + timestamp
}

/// Builds `AI4ALL:v1:<account id>:<timestamp>`, the message signed for
/// self-registration.
pub fn registration_message(account_id: &str, timestamp: &str) -> (r: String)
    ensures
        r@ == registration_message_spec(account_id@, timestamp@),
{
    let mut s = "AI4ALL:v1:".to_owned();
    s.append(account_id);
    s.append(":");
    s.append(timestamp);
    s
}

/// The group role a wire name denotes: `coordinator`, else member.
pub fn role_from_wire(role: &str) -> (r: GroupRole)
    ensures
        r == if role@ == "coordinator"@ { GroupRole::Coordinator } else { GroupRole::Member },
{
    if str_eq(role, "coordinator") { GroupRole::Coordinator } else { GroupRole::Member }
}

/// Whether a peer from the directory is worth recording: not this worker.
pub fn is_other_worker(peer_id: &str, my_id: &str) -> (r: bool)
    ensures
        r == (peer_id@ != my_id@),
{
    !str_eq(peer_id, my_id)
}

/// A peer event the supervisor acts on, reduced to plain values.
#[derive(Debug, Clone)]
pub enum PeerEvent {
    /// The peer reported its status.
    Status { status: WorkerStatus },
    /// The peer joined a group, with a wire role name.
    GroupJoin { group_id: String, role: String },
    /// The peer left a group.
    GroupLeave { group_id: String },
    /// The peer's shard of a group is loaded.
    ShardReady { group_id: String, shard_index: u32 },
    /// The peer's connection ended.
    Disconnected,
}

/// What follows from a peer event.
#[derive(Debug, Clone, Copy, PartialEq, Eq, Structural)]
pub enum PeerOutcome {
    /// Nothing further.
    Recorded,
    /// Every member of the group is now ready.
    GroupReady,
}

/// Applies a peer event from `from` at `now` to the peer directory and the
/// work groups: a status report updates the peer; a join adds the peer to
/// the group (as coordinator or member by the wire role); a leave takes it
/// out; a ready shard marks the peer ready and says whether the whole group
/// is; a disconnection drops the peer.
pub fn on_peer_event(peers: &mut PeerRegistry, groups: &mut GroupManager, from: &str, event: PeerEvent, now: u64) -> (r: PeerOutcome)
    requires
        old(peers).wf(),
        old(groups).wf(),
    ensures
        final(peers).wf(),
        final(groups).wf(),
        final(groups).my_id() == old(groups).my_id(),
        match event {
            PeerEvent::Status { status } => {
                &&& final(groups).entries() == old(groups).entries()
                &&& final(peers).entries() == match old(peers).lookup(from@) {
                    Some(p) => old(peers).entries().update(peer_index(old(peers).entries(), from@), with_status(p, status, now)),
                    None => old(peers).entries(),
                }
                &&& r == PeerOutcome::Recorded
            },
            PeerEvent::GroupJoin { group_id, role } => {
                &&& final(peers).entries() == old(peers).entries()
                &&& (old(groups).lookup(group_id@) is Some
                    && member_index(old(groups).lookup(group_id@).unwrap().members@, from@) == -1) ==> {
                    let gi = group_index(old(groups).entries(), group_id@);
                    let new = final(groups).entries()[gi].members@;
                    &&& new.drop_last() == old(groups).entries()[gi].members@
                    &&& new.last().worker_id@ == from@
                    &&& new.last().role == if role@ == "coordinator"@ { GroupRole::Coordinator } else { GroupRole::Member }
                }
                &&& !(old(groups).lookup(group_id@) is Some
                    && member_index(old(groups).lookup(group_id@).unwrap().members@, from@) == -1)
                    ==> final(groups).entries() == old(groups).entries()
                &&& r == PeerOutcome::Recorded
            },
            PeerEvent::GroupLeave { group_id } => {
                &&& final(peers).entries() == old(peers).entries()
                &&& (old(groups).lookup(group_id@) is Some
                    && member_index(old(groups).lookup(group_id@).unwrap().members@, from@) >= 0) ==> {
                    let gi = group_index(old(groups).entries(), group_id@);
                    let ms = old(groups).entries()[gi].members@;
                    let rest = ms.remove(member_index(ms, from@));
                    if rest.len() == 0 {
                        final(groups).entries() == old(groups).entries().remove(gi)
                    } else {
                        members_replaced(old(groups).entries(), final(groups).entries(), gi, rest)
                    }
                }
                &&& !(old(groups).lookup(group_id@) is Some
                    && member_index(old(groups).lookup(group_id@).unwrap().members@, from@) >= 0)
                    ==> final(groups).entries() == old(groups).entries()
                &&& r == PeerOutcome::Recorded
            },
            PeerEvent::ShardReady { group_id, shard_index } => {
                &&& final(peers).entries() == old(peers).entries()
                &&& r == if final(groups).lookup(group_id@) is Some
                    && forall|j: int| 0 <= j < final(groups).lookup(group_id@).unwrap().members@.len()
                        ==> (#[trigger] final(groups).lookup(group_id@).unwrap().members@[j]).ready {
                    PeerOutcome::GroupReady
                } else {
                    PeerOutcome::Recorded
                }
            },
            PeerEvent::Disconnected => {
                &&& final(groups).entries() == old(groups).entries()
                &&& final(peers).lookup(from@) is None
                &&& r == PeerOutcome::Recorded
            },
        },
{
    match event {
        PeerEvent::Status { status } => {
            peers.update_status(from, status, now);
            PeerOutcome::Recorded
        },
        PeerEvent::GroupJoin { group_id, role } => {
            let r = role_from_wire(role.as_str());
            groups.add_member(group_id.as_str(), from, r);
            PeerOutcome::Recorded
        },
        PeerEvent::GroupLeave { group_id } => {
            groups.remove_member(group_id.as_str(), from);
            PeerOutcome::Recorded
        },
        PeerEvent::ShardReady { group_id, shard_index } => {
            groups.set_member_ready(group_id.as_str(), from);
            if groups.all_members_ready(group_id.as_str()) {
                PeerOutcome::GroupReady
            } else {
                PeerOutcome::Recorded
            }
        },
        PeerEvent::Disconnected => {
            peers.remove(from);
            PeerOutcome::Recorded
        },
    }
}

/// Records the peers of a directory from the coordinator, as ready and
/// heard from at `now`, skipping this worker itself. A later entry for the
/// same worker replaces an earlier one. Entries whose address the caller
/// cannot use are left out before the call.
pub fn record_peer_directory(peers: &mut PeerRegistry, entries: Vec<PeerDirectoryEntry>, my_id: &str, now: u64)
    requires
        old(peers).wf(),
    ensures
        final(peers).wf(),
        forall|k: int| 0 <= k < entries@.len() && (#[trigger] entries@[k]).worker_id@ != my_id@
            ==> final(peers).lookup(entries@[k].worker_id@) is Some,
        forall|x: Seq<char>| (forall|k: int| 0 <= k < entries@.len() ==> (#[trigger] entries@[k]).worker_id@ != x)
            ==> #[trigger] final(peers).lookup(x) == old(peers).lookup(x),
{
    let ghost all = entries@;
    let mut rest = entries;
    let ghost mut done: int = 0;
    while rest.len() > 0
        invariant
            peers.wf(),
            0 <= done <= all.len(),
            rest@ == all.subrange(done, all.len() as int),
            forall|k: int| 0 <= k < done && (#[trigger] all[k]).worker_id@ != my_id@ ==> peers.lookup(all[k].worker_id@) is Some,
            forall|x: Seq<char>| (forall|k: int| 0 <= k < done ==> (#[trigger] all[k]).worker_id@ != x)
                ==> #[trigger] peers.lookup(x) == old(peers).lookup(x),
        decreases rest@.len(),
    {
        let e = rest.remove(0);
        assert(e == all[done]);
        let ghost before = *peers;
        if is_other_worker(e.worker_id.as_str(), my_id) {
            let info = PeerInfo {
                worker_id: e.worker_id,
                name: e.name,
                listen_addr: e.listen_addr,
                capabilities: e.capabilities,
                status: WorkerStatus::Ready,
                last_seen: now,
                latency_ms: None,
                groups: Vec::new(),
            };
            peers.register(info);
        }
        proof {
            assert forall|k: int| 0 <= k < done + 1 && (#[trigger] all[k]).worker_id@ != my_id@
                implies peers.lookup(all[k].worker_id@) is Some by {
                if k < done && all[k].worker_id@ != all[done].worker_id@ {
                    assert(peers.lookup(all[k].worker_id@) == before.lookup(all[k].worker_id@));
                }
            }
            assert forall|x: Seq<char>| (forall|k: int| 0 <= k < done + 1 ==> (#[trigger] all[k]).worker_id@ != x)
                implies #[trigger] peers.lookup(x) == old(peers).lookup(x) by {
                assert(all[done].worker_id@ != x);
                assert(peers.lookup(x) == before.lookup(x));
                assert forall|k: int| 0 <= k < done implies (#[trigger] all[k]).worker_id@ != x by {}
            }
            done = done + 1;
            assert(rest@ =~= all.subrange(done, all.len() as int));
        }
    }
}

/// What became of an assignment handed to the executor.
pub enum AssignmentOutcome<O> {
    /// Accepted: it runs on this backend, and its result comes later.
    Accepted(BackendType),
    /// Refused: this result goes back at once.
    Refused(TaskResult<O>),
}

/// Hands an assignment to the executor. A refusal becomes a result right
/// away, so every assignment is answered: now when refused, at the end of
/// its execution when accepted.
pub fn on_assignment<O>(ex: &mut TaskExecutor, assignment: TaskAssignment, source: TaskSource, now: u64) -> (r: AssignmentOutcome<O>)
    requires
        old(ex).wf(),
    ensures
        final(ex).wf(),
        final(ex).worker_id_spec() == old(ex).worker_id_spec(),
        final(ex).registry_spec() == old(ex).registry_spec(),
        match r {
            AssignmentOutcome::Accepted(b) => {
                &&& old(ex).tracker_spec().active_spec() < old(ex).tracker_spec().max_spec()
                &&& pick_backend(selection_order(), old(ex).registry_spec().slots_spec(), assignment.task_type) == Some(b)
                &&& final(ex).tracker_spec().lookup(assignment.task_id@) is Some
                &&& final(ex).tracker_spec().lookup(assignment.task_id@).unwrap().state == crate::tracker::TaskState::Queued
            },
            AssignmentOutcome::Refused(res) => {
                &&& final(ex).tracker_spec().entries() == old(ex).tracker_spec().entries()
                &&& res.task_id@ == assignment.task_id@
                &&& res.worker_id@ == old(ex).worker_id_spec()
                &&& !res.success
                &&& res.error is Some
                &&& !res.error.unwrap().retryable
            },
        },
        r is Accepted <==> (old(ex).tracker_spec().active_spec() < old(ex).tracker_spec().max_spec()
            && pick_backend(selection_order(), old(ex).registry_spec().slots_spec(), assignment.task_type) is Some
            && !(old(ex).tracker_spec().lookup(assignment.task_id@) is Some
                && old(ex).tracker_spec().lookup(assignment.task_id@).unwrap().state.is_active())),
        old(ex).tracker_spec().active_spec() >= old(ex).tracker_spec().max_spec() ==> r is Refused,
{
    let id = assignment.task_id.clone();
    let ghost aid = assignment.task_id@;
    let ghost t0 = ex.tracker_spec().entries();
    match ex.submit(assignment, source, now) {
        Ok(b) => {
            proof {
                let t1 = ex.tracker_spec().entries();
                crate::tracker::lemma_index_of(t0, aid);
                let i = crate::tracker::index_of(t0, aid);
                if i >= 0 {
                    crate::tracker::lemma_index_of_unique(t1, i);
                } else {
                    crate::tracker::lemma_index_of_unique(t1, t0.len() as int);
                }
            }
            AssignmentOutcome::Accepted(b)
        },
        Err(e) => {
            let worker = ex.worker_id();
            AssignmentOutcome::Refused(refusal_result(id, worker, e))
        },
    }
}

} // verus!
