//! Protocol version negotiation.

use vstd::prelude::*;
use crate::text::{decimal, u64_to_decimal};
use crate::types::TaskType;

verus! {

/// A protocol version identifier.
#[derive(Debug, Clone, Copy, PartialEq, Eq, Structural)]
pub struct ProtocolVersion {
    pub major: u32,
    pub minor: u32,
    pub patch: u32,
}

impl ProtocolVersion {
    /// Builds a version from its three parts.
    pub fn new(major: u32, minor: u32, patch: u32) -> (r: Self)
        ensures
            r == (ProtocolVersion { major, minor, patch }),
    {
        ProtocolVersion { major, minor, patch }
    }

    /// Compatibility: same major, and this side's minor at least the other's.
    pub open spec fn compatible_spec(self, other: Self) -> bool {
        self.major == other.major && self.minor >= other.minor
    }

    /// Whether this version can talk to `other`.
    pub fn is_compatible_with(&self, other: &ProtocolVersion) -> (r: bool)
        ensures
            r == self.compatible_spec(*other),
    {
        self.major == other.major && self.minor >= other.minor
    }

    /// Whether all three parts are equal.
    pub fn is_exact_match(&self, other: &ProtocolVersion) -> (r: bool)
        ensures
            r == (*self == *other),
    {
        self.major == other.major && self.minor == other.minor && self.patch == other.patch
    }

    /// The dotted text form, `major.minor.patch`.
    pub open spec fn text_spec(self) -> Seq<char> {
        decimal(self.major as nat) + seq!['.'] + decimal(self.minor as nat) + seq!['.']
            + decimal(self.patch as nat)
    }

    /// Renders the version as `major.minor.patch`.
    pub fn to_string(&self) -> (r: String)
        ensures
            r@ == self.text_spec(),
    {
        let mut s = u64_to_decimal(self.major as u64);
        s.append(".");
        s.append(u64_to_decimal(self.minor as u64).as_str());
        s.append(".");
        s.append(u64_to_decimal(self.patch as u64).as_str());
        proof { reveal_strlit("."); }
        assert(s@ =~= self.text_spec());
        s
    }
}

impl Default for ProtocolVersion {
    fn default() -> (r: Self)
        ensures
            r == (ProtocolVersion { major: 1, minor: 0, patch: 0 }),
    {
        ProtocolVersion { major: 1, minor: 0, patch: 0 }
    }
}

/// Availability of a worker as reported to the coordinator.
#[derive(Debug, Clone, Copy, PartialEq, Eq, Structural)]
pub enum WorkerStatus {
    Ready,
    Busy,
    Paused,
    Draining,
    Error,
}

impl WorkerStatus {
    pub open spec fn name_spec(self) -> Seq<char> {
        match self {
            WorkerStatus::Ready => "READY"@,
            WorkerStatus::Busy => "BUSY"@,
            WorkerStatus::Paused => "PAUSED"@,
            WorkerStatus::Draining => "DRAINING"@,
            WorkerStatus::Error => "ERROR"@,
        }
    }

    /// The wire name of the status.
    pub fn as_str(&self) -> (r: &'static str)
        ensures
            r@ == self.name_spec(),
    {
        match self {
            WorkerStatus::Ready => "READY",
            WorkerStatus::Busy => "BUSY",
            WorkerStatus::Paused => "PAUSED",
            WorkerStatus::Draining => "DRAINING",
            WorkerStatus::Error => "ERROR",
        }
    }
}

impl Default for WorkerStatus {
    fn default() -> (r: Self)
        ensures
            r == WorkerStatus::Ready,
    {
        WorkerStatus::Ready
    }
}

/// Scheduling priority of an assignment.
#[derive(Debug, Clone, Copy, PartialEq, Eq, Structural)]
pub enum TaskPriority {
    Low,
    Normal,
    High,
    Critical,
}

impl TaskPriority {
    pub open spec fn name_spec(self) -> Seq<char> {
        match self {
            TaskPriority::Low => "LOW"@,
            TaskPriority::Normal => "NORMAL"@,
            TaskPriority::High => "HIGH"@,
            TaskPriority::Critical => "CRITICAL"@,
        }
    }

    /// The wire name of the priority.
    pub fn as_str(&self) -> (r: &'static str)
        ensures
            r@ == self.name_spec(),
    {
        match self {
            TaskPriority::Low => "LOW",
            TaskPriority::Normal => "NORMAL",
            TaskPriority::High => "HIGH",
            TaskPriority::Critical => "CRITICAL",
        }
    }
}

impl Default for TaskPriority {
    fn default() -> (r: Self)
        ensures
            r == TaskPriority::Normal,
    {
        TaskPriority::Normal
    }
}

/// A task handed to this worker, reduced to what admission, routing and
/// supervision read: the typed input is represented by its kind.
#[derive(Debug, Clone)]
pub struct TaskAssignment {
    pub task_id: String,
    pub block_id: Option<String>,
    pub day_id: Option<String>,
    pub priority: TaskPriority,
    pub model_id: String,
    pub task_type: TaskType,
    pub is_canary: bool,
    pub expected_hash: Option<String>,
    pub timeout_secs: u64,
}

/// What a worker advertises it can do.
#[derive(Debug, Clone)]
pub struct WorkerCapabilities {
    pub supported_tasks: Vec<TaskType>,
    pub max_concurrent_tasks: u32,
    pub available_memory_mb: u64,
    pub gpu_available: bool,
    pub gpu_device: Option<String>,
    pub gpu_memory_mb: Option<u64>,
    pub max_context_length: u32,
    pub worker_version: String,
}

impl WorkerCapabilities {
    /// Whether tasks of kind `t` are advertised.
    pub open spec fn supports_spec(&self, t: TaskType) -> bool {
        self.supported_tasks@.contains(t)
    }

    /// Whether tasks of kind `t` are advertised.
    pub fn supports_task(&self, t: TaskType) -> (r: bool)
        ensures
            r == self.supports_spec(t),
    {
        let mut i: usize = 0;
        while i < self.supported_tasks.len()
            invariant
                i <= self.supported_tasks@.len(),
                forall|k: int| 0 <= k < i ==> self.supported_tasks@[k] != t,
            decreases self.supported_tasks@.len() - i,
        {
            if self.supported_tasks[i] == t {
                return true;
            }
            i += 1;
        }
        false
    }
}

/// Registration sent once the transport is open.
#[derive(Debug, Clone)]
pub struct RegisterRequest {
    pub worker_id: Option<String>,
    pub name: String,
    pub capabilities: WorkerCapabilities,
    pub tags: Vec<String>,
    pub auth_token: Option<String>,
}

/// The coordinator withdraws a task.
#[derive(Debug, Clone)]
pub struct TaskCancelMessage {
    pub task_id: String,
    pub reason: String,
    pub force: bool,
}

/// A change of the worker's status.
#[derive(Debug, Clone)]
pub struct StatusUpdateMessage {
    pub worker_id: String,
    pub status: WorkerStatus,
    pub reason: Option<String>,
}

/// Notice that the worker leaves.
#[derive(Debug, Clone)]
pub struct ShutdownMessage {
    pub worker_id: String,
    pub reason: String,
    pub graceful: bool,
    pub abandoned_tasks: Vec<String>,
}

impl ShutdownMessage {
    /// A graceful shutdown notice naming the tasks left unfinished.
    pub fn graceful(worker_id: String, reason: String, abandoned_tasks: Vec<String>) -> (r: Self)
        ensures
            r.worker_id == worker_id,
            r.reason == reason,
            r.graceful,
            r.abandoned_tasks@ == abandoned_tasks@,
    {
        ShutdownMessage { worker_id, reason, graceful: true, abandoned_tasks }
    }
}

/// A worker announcing itself for discovery.
#[derive(Debug, Clone)]
pub struct PeerDiscoverMessage {
    pub worker_id: String,
    pub listen_addr: String,
    pub capabilities: WorkerCapabilities,
}

/// One worker of the peer directory.
#[derive(Debug, Clone)]
pub struct PeerDirectoryEntry {
    pub worker_id: String,
    pub name: String,
    pub listen_addr: String,
    pub capabilities: WorkerCapabilities,
    pub status: WorkerStatus,
}

/// The directory of workers the coordinator knows.
#[derive(Debug, Clone)]
pub struct PeerDirectoryMessage {
    pub peers: Vec<PeerDirectoryEntry>,
}

/// Purpose of an assigned group, as sent.
#[derive(Debug, Clone)]
pub enum GroupPurposeMessage {
    ModelShard { model_id: String, total_shards: u32 },
    TaskPipeline { pipeline_id: String, stages: Vec<TaskType> },
    General,
}

/// One member of an assigned group, as sent; the role is `coordinator` or
/// anything else for a member.
#[derive(Debug, Clone)]
pub struct GroupMemberMessage {
    pub worker_id: String,
    pub role: String,
    pub shard_index: Option<u32>,
    pub pipeline_stage: Option<u32>,
}

/// The coordinator puts this worker in a group.
#[derive(Debug, Clone)]
pub struct GroupAssignedMessage {
    pub group_id: String,
    pub purpose: GroupPurposeMessage,
    pub members: Vec<GroupMemberMessage>,
}

/// A change of a group's membership.
#[derive(Debug, Clone)]
pub struct GroupUpdateMessage {
    pub group_id: String,
    pub members: Vec<GroupMemberMessage>,
    pub disbanded: bool,
}

} // verus!
