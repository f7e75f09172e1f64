//! Decisions of the coordinator session: connection states, registration,
//! heartbeats, and reconnection with capped doubling backoff.
//!
//! The transport, timers and channels are driven by the caller, which hands
//! each event to these functions and carries out what they decide.

use vstd::prelude::*;
use crate::protocol::{ProtocolVersion, WorkerStatus};

verus! {

/// Settings of the coordinator session. Durations are in seconds.
#[derive(Debug, Clone)]
pub struct CoordinatorClientConfig {
    pub url: String,
    pub connect_timeout_secs: u64,
    /// Consecutive failed cycles before giving up; zero retries forever.
    pub max_reconnect_attempts: u32,
    pub initial_reconnect_delay_secs: u64,
    pub max_reconnect_delay_secs: u64,
    pub heartbeat_interval_secs: u64,
    pub message_queue_size: usize,
}

impl Default for CoordinatorClientConfig {
    fn default() -> (r: Self)
        ensures
            r.url@ == "wss://coordinator.ai4all.network"@,
            r.connect_timeout_secs == 30,
            r.max_reconnect_attempts == 0,
            r.initial_reconnect_delay_secs == 1,
            r.max_reconnect_delay_secs == 60,
            r.heartbeat_interval_secs == 30,
            r.message_queue_size == 100,
    {
        CoordinatorClientConfig {
            url: "wss://coordinator.ai4all.network".to_owned(),
            connect_timeout_secs: 30,
            max_reconnect_attempts: 0,
            initial_reconnect_delay_secs: 1,
            max_reconnect_delay_secs: 60,
            heartbeat_interval_secs: 30,
            message_queue_size: 100,
        }
    }
}

/// Where the session stands.
#[derive(Debug, Clone, Copy, PartialEq, Eq, Structural)]
pub enum ConnectionState {
    Disconnected,
    Connecting,
    Connected,
    Registered,
    Reconnecting,
    ShuttingDown,
}

impl Default for ConnectionState {
    fn default() -> (r: Self)
        ensures
            r == ConnectionState::Disconnected,
    {
        ConnectionState::Disconnected
    }
}

/// The delay after `d`: doubled, but never past `max`.
pub open spec fn doubled_capped(d: u64, max: u64) -> u64 {
    if d as int * 2 <= max as int { (d * 2) as u64 } else { max }
}

/// The `n`-th delay of a backoff from `initial` capped at `max`.
pub open spec fn backoff_delay(initial: u64, max: u64, n: nat) -> u64
    decreases n,
{
    if n == 0 { initial } else { doubled_capped(backoff_delay(initial, max, (n - 1) as nat), max) }
}

/// Every delay lies between the initial delay and the cap, and no delay is
/// shorter than the one before it.
pub proof fn lemma_backoff_bounded_monotone(initial: u64, max: u64, n: nat)
    requires
        initial <= max,
    ensures
        initial <= backoff_delay(initial, max, n) <= max,
        backoff_delay(initial, max, n) <= backoff_delay(initial, max, n + 1),
    decreases n,
{
    if n > 0 {
        lemma_backoff_bounded_monotone(initial, max, (n - 1) as nat);
    }
}

/// Reconnection delays, in milliseconds: the initial delay, doubling on
/// each failure up to a cap, back to the initial delay on success.
#[derive(Debug, Clone, Copy, PartialEq, Eq, Structural)]
pub struct ReconnectBackoff {
    initial_ms: u64,
    max_ms: u64,
    next_ms: u64,
    failures: u64,
}

impl ReconnectBackoff {
    pub closed spec fn initial_spec(&self) -> u64 {
        self.initial_ms
    }

    pub closed spec fn max_spec(&self) -> u64 {
        self.max_ms
    }

    /// Failures since the last reset.
    pub closed spec fn failures_spec(&self) -> nat {
        self.failures as nat
    }

    /// The delay the next failure waits.
    pub closed spec fn next_spec(&self) -> u64 {
        self.next_ms
    }

    /// The next delay is the one the failure count calls for, within bounds.
    pub open spec fn wf(&self) -> bool {
        &&& self.initial_spec() <= self.max_spec()
        &&& self.next_spec() == backoff_delay(self.initial_spec(), self.max_spec(), self.failures_spec())
    }

    /// A backoff starting at `initial_ms`; the cap is raised to the initial
    /// delay when it is below it.
    pub fn new(initial_ms: u64, max_ms: u64) -> (r: Self)
        ensures
            r.wf(),
            r.initial_spec() == initial_ms,
            r.max_spec() == if max_ms >= initial_ms { max_ms } else { initial_ms },
            r.failures_spec() == 0,
    {
        let max = if max_ms >= initial_ms { max_ms } else { initial_ms };
        ReconnectBackoff { initial_ms, max_ms: max, next_ms: initial_ms, failures: 0 }
    }

    /// The delay before the next attempt; the one after it doubles, up to
    /// the cap. The failure count stops at its largest value, where the
    /// delay has long reached the cap.
    pub fn next_backoff(&mut self) -> (r: u64)
        requires
            old(self).wf(),
        ensures
            final(self).wf(),
            r == backoff_delay(old(self).initial_spec(), old(self).max_spec(), old(self).failures_spec()),
            r == old(self).next_spec(),
            old(self).initial_spec() <= r <= old(self).max_spec(),
            final(self).initial_spec() == old(self).initial_spec(),
            final(self).max_spec() == old(self).max_spec(),
            final(self).failures_spec() == if old(self).failures_spec() < u64::MAX {
                old(self).failures_spec() + 1
            } else {
                old(self).failures_spec()
            },
            final(self).next_spec() >= r,
            final(self).next_spec() <= final(self).max_spec(),
    {
        proof { lemma_backoff_bounded_monotone(self.initial_ms, self.max_ms, self.failures as nat); }
        let r = self.next_ms;
        if self.failures < u64::MAX {
            self.next_ms = if r <= self.max_ms / 2 { r * 2 } else { self.max_ms };
            self.failures = self.failures + 1;
        }
        r
    }

    /// Back to the initial delay, as after a successful registration.
    pub fn reset(&mut self)
        requires
            old(self).wf(),
        ensures
            final(self).wf(),
            final(self).initial_spec() == old(self).initial_spec(),
            final(self).max_spec() == old(self).max_spec(),
            final(self).failures_spec() == 0,
            final(self).next_spec() == old(self).initial_spec(),
    {
        self.next_ms = self.initial_ms;
        self.failures = 0;
    }

    /// Failures since the last reset.
    pub fn failures(&self) -> (r: u64)
        ensures
            r == self.failures_spec(),
    {
        self.failures
    }
}

/// The coordinator's answer to a registration.
#[derive(Debug, Clone)]
pub struct RegisterAckResponse {
    pub success: bool,
    pub worker_id: String,
    pub session_token: Option<String>,
    pub heartbeat_interval_secs: u32,
    pub coordinator_version: ProtocolVersion,
    pub error: Option<String>,
}

/// Why a session ended for good.
#[derive(Debug, Clone, Copy, PartialEq, Eq, Structural)]
pub enum SessionFailure {
    /// The coordinator refused the registration.
    AuthenticationFailed,
    /// The coordinator speaks an incompatible protocol version.
    IncompatibleVersion,
    /// The consecutive failed cycles reached the configured maximum.
    ReconnectLimitReached,
}

/// What to do after a connection is lost.
#[derive(Debug, Clone, Copy, PartialEq, Eq, Structural)]
pub enum ReconnectDecision {
    /// Sleep this many milliseconds, then connect again.
    Wait(u64),
    /// Stop: the session is over.
    GiveUp(SessionFailure),
}

/// A heartbeat's content, apart from resource figures.
#[derive(Debug, Clone)]
pub struct HeartbeatRequest {
    pub worker_id: String,
    pub status: WorkerStatus,
    pub active_tasks: Vec<String>,
    pub completed_task_count: u32,
    pub uptime_secs: u64,
}

/// The session's own state.
pub struct SessionState {
    connection_state: ConnectionState,
    worker_id: Option<String>,
    session_token: Option<String>,
    worker_status: WorkerStatus,
    reconnect_attempts: u32,
    max_reconnect_attempts: u32,
    backoff: ReconnectBackoff,
    local_version: ProtocolVersion,
}

impl SessionState {
    pub closed spec fn state_spec(&self) -> ConnectionState {
        self.connection_state
    }

    /// The worker id adopted at the last successful registration of the
    /// current connection.
    pub closed spec fn worker_id_spec(&self) -> Option<Seq<char>> {
        match self.worker_id {
            Some(w) => Some(w@),
            None => None,
        }
    }

    pub closed spec fn token_spec(&self) -> Option<Seq<char>> {
        match self.session_token {
            Some(t) => Some(t@),
            None => None,
        }
    }

    pub closed spec fn status_spec(&self) -> WorkerStatus {
        self.worker_status
    }

    pub closed spec fn attempts_spec(&self) -> u32 {
        self.reconnect_attempts
    }

    pub closed spec fn max_attempts_spec(&self) -> u32 {
        self.max_reconnect_attempts
    }

    pub closed spec fn backoff_spec(&self) -> ReconnectBackoff {
        self.backoff
    }

    pub closed spec fn local_version_spec(&self) -> ProtocolVersion {
        self.local_version
    }

    /// A worker id is held exactly while registered; the backoff is sound.
    pub open spec fn wf(&self) -> bool {
        &&& (self.worker_id_spec() is Some <==> self.state_spec() == ConnectionState::Registered)
        &&& self.backoff_spec().wf()
    }

    /// Nothing but the connection state and worker status may differ.
    pub open spec fn same_identity(&self, other: &SessionState) -> bool {
        &&& self.worker_id_spec() == other.worker_id_spec()
        &&& self.token_spec() == other.token_spec()
        &&& self.attempts_spec() == other.attempts_spec()
        &&& self.max_attempts_spec() == other.max_attempts_spec()
        &&& self.backoff_spec() == other.backoff_spec()
        &&& self.local_version_spec() == other.local_version_spec()
    }

    /// A disconnected session with the given limits, speaking `local_version`.
    pub fn new(config: &CoordinatorClientConfig, local_version: ProtocolVersion) -> (r: Self)
        requires
            config.initial_reconnect_delay_secs <= u64::MAX / 1000,
            config.max_reconnect_delay_secs <= u64::MAX / 1000,
        ensures
            r.wf(),
            r.state_spec() == ConnectionState::Disconnected,
            r.worker_id_spec() is None,
            r.token_spec() is None,
            r.status_spec() == WorkerStatus::Ready,
            r.attempts_spec() == 0,
            r.max_attempts_spec() == config.max_reconnect_attempts,
            r.backoff_spec().initial_spec() == config.initial_reconnect_delay_secs * 1000,
            r.backoff_spec().failures_spec() == 0,
            r.local_version_spec() == local_version,
    {
        let backoff = ReconnectBackoff::new(
            config.initial_reconnect_delay_secs * 1000,
            config.max_reconnect_delay_secs * 1000,
        );
        SessionState {
            connection_state: ConnectionState::Disconnected,
            worker_id: None,
            session_token: None,
            worker_status: WorkerStatus::Ready,
            reconnect_attempts: 0,
            max_reconnect_attempts: config.max_reconnect_attempts,
            backoff,
            local_version,
        }
    }

    /// The connection state.
    pub fn connection_state(&self) -> (r: ConnectionState)
        ensures
            r == self.state_spec(),
    {
        self.connection_state
    }

    /// The worker id of the current registration.
    pub fn worker_id(&self) -> (r: Option<&String>)
        ensures
            match r {
                Some(w) => self.worker_id_spec() == Some(w@),
                None => self.worker_id_spec() is None,
            },
    {
        match &self.worker_id {
            Some(w) => Some(w),
            None => None,
        }
    }

    /// Registered, so work can be reported.
    pub fn is_ready(&self) -> (r: bool)
        ensures
            r == (self.state_spec() == ConnectionState::Registered),
    {
        self.connection_state == ConnectionState::Registered
    }

    /// Starts a connection attempt; refused once shutting down.
    pub fn begin_connect(&mut self) -> (r: bool)
        requires
            old(self).wf(),
            old(self).state_spec() != ConnectionState::Registered,
        ensures
            final(self).wf(),
            final(self).same_identity(old(self)),
            final(self).status_spec() == old(self).status_spec(),
            r == (old(self).state_spec() != ConnectionState::ShuttingDown),
            final(self).state_spec() == if r { ConnectionState::Connecting } else { old(self).state_spec() },
    {
        if self.connection_state == ConnectionState::ShuttingDown {
            return false;
        }
        self.connection_state = ConnectionState::Connecting;
        true
    }

    /// The transport is open; registration comes next.
    pub fn on_connected(&mut self)
        requires
            old(self).wf(),
            old(self).state_spec() == ConnectionState::Connecting,
        ensures
            final(self).wf(),
            final(self).same_identity(old(self)),
            final(self).status_spec() == old(self).status_spec(),
            final(self).state_spec() == ConnectionState::Connected,
    {
        self.connection_state = ConnectionState::Connected;
    }

    /// Takes the coordinator's answer to a registration. On success the
    /// given worker id and token are adopted verbatim and the backoff and
    /// failure count start over; a refusal or an incompatible version ends
    /// the session.
    pub fn on_register_ack(&mut self, ack: RegisterAckResponse) -> (r: Result<(), SessionFailure>)
        requires
            old(self).wf(),
            old(self).state_spec() == ConnectionState::Connected,
        ensures
            final(self).wf(),
            final(self).max_attempts_spec() == old(self).max_attempts_spec(),
            final(self).local_version_spec() == old(self).local_version_spec(),
            final(self).status_spec() == old(self).status_spec(),
            !ack.success ==> r == Err::<(), SessionFailure>(SessionFailure::AuthenticationFailed),
            ack.success && !old(self).local_version_spec().compatible_spec(ack.coordinator_version)
                ==> r == Err::<(), SessionFailure>(SessionFailure::IncompatibleVersion),
            r is Err ==> final(self).state_spec() == ConnectionState::ShuttingDown
                && final(self).worker_id_spec() is None
                && final(self).attempts_spec() == old(self).attempts_spec()
                && final(self).backoff_spec() == old(self).backoff_spec(),
            r is Ok <==> ack.success && old(self).local_version_spec().compatible_spec(ack.coordinator_version),
            r is Ok ==> final(self).state_spec() == ConnectionState::Registered
                && final(self).worker_id_spec() == Some(ack.worker_id@)
                && final(self).token_spec() == match ack.session_token { Some(t) => Some(t@), None => None::<Seq<char>> }
                && final(self).attempts_spec() == 0
                && final(self).backoff_spec().failures_spec() == 0
                && final(self).backoff_spec().next_spec() == old(self).backoff_spec().initial_spec()
                && final(self).backoff_spec().initial_spec() == old(self).backoff_spec().initial_spec()
                && final(self).backoff_spec().max_spec() == old(self).backoff_spec().max_spec(),
    {
        if !ack.success {
            self.connection_state = ConnectionState::ShuttingDown;
            return Err(SessionFailure::AuthenticationFailed);
        }
        if !self.local_version.is_compatible_with(&ack.coordinator_version) {
            self.connection_state = ConnectionState::ShuttingDown;
            return Err(SessionFailure::IncompatibleVersion);
        }
        self.connection_state = ConnectionState::Registered;
        self.worker_id = Some(ack.worker_id);
        self.session_token = ack.session_token;
        self.reconnect_attempts = 0;
        self.backoff.reset();
        Ok(())
    }

    /// The registration window closed without an answer, or with an error:
    /// fatal, as a refusal is.
    pub fn on_register_timeout(&mut self) -> (r: SessionFailure)
        requires
            old(self).wf(),
            old(self).state_spec() == ConnectionState::Connected,
        ensures
            final(self).wf(),
            final(self).same_identity(old(self)),
            final(self).status_spec() == old(self).status_spec(),
            final(self).state_spec() == ConnectionState::ShuttingDown,
            r == SessionFailure::AuthenticationFailed,
    {
        self.connection_state = ConnectionState::ShuttingDown;
        SessionFailure::AuthenticationFailed
    }

    /// The heartbeat to send while registered; it carries the registered
    /// worker id verbatim.
    pub fn heartbeat(&self, active_tasks: Vec<String>, completed_task_count: u32, uptime_secs: u64) -> (r: Option<HeartbeatRequest>)
        requires
            self.wf(),
        ensures
            r is Some <==> self.state_spec() == ConnectionState::Registered,
            r is Some ==> Some(r.unwrap().worker_id@) == self.worker_id_spec()
                && r.unwrap().status == self.status_spec()
                && r.unwrap().active_tasks@ == active_tasks@
                && r.unwrap().completed_task_count == completed_task_count
                && r.unwrap().uptime_secs == uptime_secs,
    {
        if self.connection_state != ConnectionState::Registered {
            return None;
        }
        match &self.worker_id {
            Some(w) => Some(HeartbeatRequest {
                worker_id: w.clone(),
                status: self.worker_status,
                active_tasks,
                completed_task_count,
                uptime_secs,
            }),
            None => None,
        }
    }

    /// Records the status that the next heartbeat reports.
    pub fn update_status(&mut self, status: WorkerStatus)
        requires
            old(self).wf(),
        ensures
            final(self).wf(),
            final(self).same_identity(old(self)),
            final(self).state_spec() == old(self).state_spec(),
            final(self).status_spec() == status,
    {
        self.worker_status = status;
    }

    /// The connection failed or was lost. The registration is dropped and
    /// one more failed cycle counted; at the configured limit the session
    /// gives up, otherwise it waits the next backoff delay.
    pub fn on_disconnected(&mut self) -> (r: ReconnectDecision)
        requires
            old(self).wf(),
            old(self).state_spec() != ConnectionState::ShuttingDown,
        ensures
            final(self).wf(),
            final(self).max_attempts_spec() == old(self).max_attempts_spec(),
            final(self).local_version_spec() == old(self).local_version_spec(),
            final(self).status_spec() == old(self).status_spec(),
            final(self).worker_id_spec() is None,
            final(self).token_spec() is None,
            final(self).attempts_spec() == if old(self).attempts_spec() < u32::MAX {
                (old(self).attempts_spec() + 1) as u32
            } else {
                old(self).attempts_spec()
            },
            old(self).max_attempts_spec() > 0 && final(self).attempts_spec() >= old(self).max_attempts_spec()
                ==> r == ReconnectDecision::GiveUp(SessionFailure::ReconnectLimitReached)
                    && final(self).state_spec() == ConnectionState::ShuttingDown
                    && final(self).backoff_spec() == old(self).backoff_spec(),
            !(old(self).max_attempts_spec() > 0 && final(self).attempts_spec() >= old(self).max_attempts_spec())
                ==> final(self).state_spec() == ConnectionState::Reconnecting
                    && r == ReconnectDecision::Wait(backoff_delay(old(self).backoff_spec().initial_spec(),
                        old(self).backoff_spec().max_spec(), old(self).backoff_spec().failures_spec()))
                    && final(self).backoff_spec().failures_spec() >= old(self).backoff_spec().failures_spec()
                    && final(self).backoff_spec().next_spec() >= backoff_delay(old(self).backoff_spec().initial_spec(),
                        old(self).backoff_spec().max_spec(), old(self).backoff_spec().failures_spec())
                    && final(self).backoff_spec().initial_spec() == old(self).backoff_spec().initial_spec()
                    && final(self).backoff_spec().max_spec() == old(self).backoff_spec().max_spec(),
    {
        self.worker_id = None;
        self.session_token = None;
        self.reconnect_attempts = self.reconnect_attempts.saturating_add(1);
        if self.max_reconnect_attempts > 0 && self.reconnect_attempts >= self.max_reconnect_attempts {
            self.connection_state = ConnectionState::ShuttingDown;
            return ReconnectDecision::GiveUp(SessionFailure::ReconnectLimitReached);
        }
        self.connection_state = ConnectionState::Reconnecting;
        let d = self.backoff.next_backoff();
        ReconnectDecision::Wait(d)
    }

    /// A shutdown command: the session ends.
    pub fn on_shutdown(&mut self)
        requires
            old(self).wf(),
        ensures
            final(self).wf(),
            final(self).state_spec() == ConnectionState::ShuttingDown,
            final(self).worker_id_spec() is None,
            final(self).max_attempts_spec() == old(self).max_attempts_spec(),
            final(self).backoff_spec() == old(self).backoff_spec(),
    {
        self.worker_id = None;
        self.session_token = None;
        self.connection_state = ConnectionState::ShuttingDown;
    }
}

} // verus!
