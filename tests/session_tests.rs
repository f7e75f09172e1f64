use worker::protocol::{ProtocolVersion, WorkerStatus};
use worker::session::{
    ConnectionState, CoordinatorClientConfig, ReconnectBackoff, ReconnectDecision, RegisterAckResponse, SessionFailure,
    SessionState,
};

fn ack(id: &str, success: bool, version: ProtocolVersion) -> RegisterAckResponse {
    RegisterAckResponse {
        success,
        worker_id: id.to_string(),
        session_token: Some("tok".to_string()),
        heartbeat_interval_secs: 30,
        coordinator_version: version,
        error: None,
    }
}

fn registered(id: &str) -> SessionState {
    let mut s = SessionState::new(&CoordinatorClientConfig::default(), ProtocolVersion::new(1, 0, 0));
    assert!(s.begin_connect());
    s.on_connected();
    assert_eq!(s.on_register_ack(ack(id, true, ProtocolVersion::new(1, 0, 0))), Ok(()));
    s
}

#[test]
fn test_client_state_default() {
    let state = SessionState::new(&CoordinatorClientConfig::default(), ProtocolVersion::new(1, 0, 0));
    assert_eq!(state.connection_state(), ConnectionState::Disconnected);
    assert!(state.worker_id().is_none());
    let hb = registered("w").heartbeat(vec![], 0, 0).unwrap();
    assert_eq!(hb.status, WorkerStatus::Ready);
}

#[test]
fn backoff_doubles_up_to_the_cap_then_resets() {
    let mut b = ReconnectBackoff::new(1000, 5000);
    let delays: Vec<u64> = (0..5).map(|_| b.next_backoff()).collect();
    assert_eq!(delays, vec![1000, 2000, 4000, 5000, 5000]);
    assert_eq!(b.failures(), 5);
    b.reset();
    assert_eq!(b.next_backoff(), 1000);
}

#[test]
fn backoff_cap_below_initial_is_raised() {
    let mut b = ReconnectBackoff::new(3000, 1000);
    assert_eq!(b.next_backoff(), 3000);
    assert_eq!(b.next_backoff(), 3000);
}

#[test]
fn heartbeats_carry_the_registered_id() {
    let mut s = registered("w-42");
    assert!(s.is_ready());
    s.update_status(WorkerStatus::Busy);
    let hb = s.heartbeat(vec!["t1".to_string()], 3, 99).unwrap();
    assert_eq!(hb.worker_id, "w-42");
    assert_eq!(hb.status, WorkerStatus::Busy);
    assert_eq!(hb.active_tasks, vec!["t1".to_string()]);
    assert_eq!(hb.completed_task_count, 3);
}

#[test]
fn reconnection_adopts_the_new_id() {
    let mut s = registered("old-id");
    assert_eq!(s.on_disconnected(), ReconnectDecision::Wait(1000));
    assert!(s.heartbeat(vec![], 0, 0).is_none());
    assert!(s.worker_id().is_none());
    assert!(s.begin_connect());
    s.on_connected();
    assert_eq!(s.on_register_ack(ack("new-id", true, ProtocolVersion::new(1, 0, 0))), Ok(()));
    assert_eq!(s.heartbeat(vec![], 0, 0).unwrap().worker_id, "new-id");
}

#[test]
fn refused_registration_is_fatal() {
    let mut s = SessionState::new(&CoordinatorClientConfig::default(), ProtocolVersion::new(1, 0, 0));
    s.begin_connect();
    s.on_connected();
    assert_eq!(s.on_register_ack(ack("x", false, ProtocolVersion::new(1, 0, 0))), Err(SessionFailure::AuthenticationFailed));
    assert_eq!(s.connection_state(), ConnectionState::ShuttingDown);
    assert!(!s.begin_connect());
}

#[test]
fn incompatible_coordinator_is_fatal() {
    let mut s = SessionState::new(&CoordinatorClientConfig::default(), ProtocolVersion::new(1, 0, 0));
    s.begin_connect();
    s.on_connected();
    assert_eq!(s.on_register_ack(ack("x", true, ProtocolVersion::new(2, 0, 0))), Err(SessionFailure::IncompatibleVersion));
}

#[test]
fn reconnect_limit_gives_up() {
    let mut config = CoordinatorClientConfig::default();
    config.max_reconnect_attempts = 2;
    let mut s = SessionState::new(&config, ProtocolVersion::new(1, 0, 0));
    s.begin_connect();
    assert_eq!(s.on_disconnected(), ReconnectDecision::Wait(1000));
    s.begin_connect();
    assert_eq!(s.on_disconnected(), ReconnectDecision::GiveUp(SessionFailure::ReconnectLimitReached));
    assert_eq!(s.connection_state(), ConnectionState::ShuttingDown);
}

#[test]
fn shutdown_ends_the_session() {
    let mut s = registered("w");
    s.on_shutdown();
    assert_eq!(s.connection_state(), ConnectionState::ShuttingDown);
    assert!(s.heartbeat(vec![], 0, 0).is_none());
}

#[test]
fn backoff_resets_on_registration() {
    let mut s = registered("w");
    assert_eq!(s.on_disconnected(), ReconnectDecision::Wait(1000));
    s.begin_connect();
    assert_eq!(s.on_disconnected(), ReconnectDecision::Wait(2000));
    s.begin_connect();
    s.on_connected();
    assert_eq!(s.on_register_ack(ack("w", true, ProtocolVersion::new(1, 0, 0))), Ok(()));
    assert_eq!(s.on_disconnected(), ReconnectDecision::Wait(1000));
}
