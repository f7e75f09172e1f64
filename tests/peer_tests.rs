use worker::groups::{GroupManager, GroupPurpose, GroupRole};
use worker::framing::{decode_frame, FrameDecode};
use worker::mesh::{on_read, AttachError, HandshakeError, HandshakeFrame, PeerConnections, ReadAction};
use worker::protocol::PeerDirectoryEntry;
use worker::supervisor::{on_peer_event, record_peer_directory, PeerEvent, PeerOutcome};
use worker::peer::{PeerInfo, PeerRegistry};
use worker::protocol::{WorkerCapabilities, WorkerStatus};
use worker::types::TaskType;

fn make_peer(id: &str, tasks: Vec<TaskType>) -> PeerInfo {
    PeerInfo {
        worker_id: id.to_string(),
        name: format!("Worker {}", id),
        listen_addr: "127.0.0.1:9100".to_string(),
        capabilities: WorkerCapabilities {
            supported_tasks: tasks,
            max_concurrent_tasks: 4,
            available_memory_mb: 8192,
            gpu_available: false,
            gpu_device: None,
            gpu_memory_mb: None,
            max_context_length: 4096,
            worker_version: "0.1.0".to_string(),
        },
        status: WorkerStatus::Ready,
        last_seen: 1_000_000,
        latency_ms: None,
        groups: vec![],
    }
}

#[test]
fn test_register_and_get() {
    let mut registry = PeerRegistry::new();
    let peer = make_peer("w1", vec![TaskType::TextCompletion]);

    registry.register(peer);
    assert_eq!(registry.peer_count(), 1);

    let got = registry.get("w1").unwrap();
    assert_eq!(got.worker_id, "w1");
}

#[test]
fn register_same_id_replaces() {
    let mut registry = PeerRegistry::new();
    registry.register(make_peer("w1", vec![]));
    let mut again = make_peer("w1", vec![TaskType::Embeddings]);
    again.name = "renamed".to_string();
    registry.register(again);
    assert_eq!(registry.peer_count(), 1);
    assert_eq!(registry.get("w1").unwrap().name, "renamed");
}

#[test]
fn test_remove() {
    let mut registry = PeerRegistry::new();
    registry.register(make_peer("w1", vec![]));
    assert_eq!(registry.peer_count(), 1);

    registry.remove("w1");
    assert_eq!(registry.peer_count(), 0);
    assert!(registry.get("w1").is_none());
}

#[test]
fn test_peers_with_capability() {
    let mut registry = PeerRegistry::new();
    registry.register(make_peer("w1", vec![TaskType::TextCompletion, TaskType::Embeddings]));
    registry.register(make_peer("w2", vec![TaskType::Embeddings]));
    registry.register(make_peer("w3", vec![TaskType::Classification]));

    let text_peers = registry.peers_with_capability(TaskType::TextCompletion);
    assert_eq!(text_peers.len(), 1);

    let embed_peers = registry.peers_with_capability(TaskType::Embeddings);
    assert_eq!(embed_peers.len(), 2);
    assert_eq!(registry.all_peers().len(), 3);
}

#[test]
fn test_update_status() {
    let mut registry = PeerRegistry::new();
    registry.register(make_peer("w1", vec![]));

    registry.update_status("w1", WorkerStatus::Busy, 1_000_500);
    let peer = registry.get("w1").unwrap();
    assert_eq!(peer.status, WorkerStatus::Busy);
    assert_eq!(peer.last_seen, 1_000_500);
}

#[test]
fn test_groups() {
    let mut registry = PeerRegistry::new();
    registry.register(make_peer("w1", vec![]));
    registry.register(make_peer("w2", vec![]));

    registry.add_to_group("w1", "group-1");
    registry.add_to_group("w2", "group-1");
    registry.add_to_group("w2", "group-2");
    registry.add_to_group("w2", "group-2");

    let g1_peers = registry.peers_in_group("group-1");
    assert_eq!(g1_peers.len(), 2);

    let g2_peers = registry.peers_in_group("group-2");
    assert_eq!(g2_peers.len(), 1);
    assert_eq!(registry.get("w2").unwrap().groups.len(), 2);

    registry.remove_from_group("w1", "group-1");
    let g1_peers = registry.peers_in_group("group-1");
    assert_eq!(g1_peers.len(), 1);
}

#[test]
fn test_prune_stale() {
    let mut registry = PeerRegistry::new();
    let now: u64 = 1_000_000;
    let mut stale_peer = make_peer("stale", vec![]);
    stale_peer.last_seen = now - 120_000;
    registry.register(stale_peer);
    let mut fresh = make_peer("fresh", vec![]);
    fresh.last_seen = now;
    registry.register(fresh);

    let pruned = registry.prune_stale(now, 60_000);
    assert_eq!(pruned.len(), 1);
    assert_eq!(pruned[0], "stale");
    assert_eq!(registry.peer_count(), 1);
}

#[test]
fn prune_with_zero_timeout_removes_every_peer() {
    let mut registry = PeerRegistry::new();
    registry.register(make_peer("a", vec![]));
    registry.register(make_peer("b", vec![]));
    let pruned = registry.prune_stale(1_000_000, 0);
    assert_eq!(pruned, vec!["a".to_string(), "b".to_string()]);
    assert_eq!(registry.peer_count(), 0);
}

#[test]
fn best_peer_is_ready_capable_and_fastest() {
    let mut registry = PeerRegistry::new();
    registry.register(make_peer("slow", vec![TaskType::TextCompletion]));
    registry.register(make_peer("fast", vec![TaskType::TextCompletion]));
    registry.register(make_peer("busy", vec![TaskType::TextCompletion]));
    registry.update_latency("slow", 80, 1_000_001);
    registry.update_latency("fast", 20, 1_000_001);
    registry.update_latency("busy", 5, 1_000_001);
    registry.update_status("busy", WorkerStatus::Busy, 1_000_002);
    registry.touch("slow", 1_000_003);
    assert_eq!(registry.best_peer_for_task(TaskType::TextCompletion).unwrap().worker_id, "fast");
    assert!(registry.best_peer_for_task(TaskType::WebCrawl).is_none());
}

#[test]
fn one_connection_per_peer() {
    let mut conns = PeerConnections::new(2);
    assert_eq!(conns.attach("a"), Ok(()));
    assert_eq!(conns.attach("a"), Err(AttachError::AlreadyConnected));
    assert_eq!(conns.attach("b"), Ok(()));
    assert!(!conns.can_accept());
    assert_eq!(conns.attach("c"), Err(AttachError::AtCapacity));
    assert!(conns.detach("a"));
    assert!(!conns.is_connected("a"));
    assert!(!conns.detach("a"));
    assert_eq!(conns.count(), 1);
}

#[test]
fn handshake_records_one_connection() {
    let mut conns = PeerConnections::new(4);
    let got = conns.complete_handshake(true, Some(HandshakeFrame::Hello { worker_id: "a".to_string() }));
    assert_eq!(got, Ok("a".to_string()));
    assert_eq!(
        conns.complete_handshake(true, Some(HandshakeFrame::Hello { worker_id: "a".to_string() })),
        Err(HandshakeError::Refused(AttachError::AlreadyConnected))
    );
    assert_eq!(conns.complete_handshake(false, None), Err(HandshakeError::Timeout));
    assert_eq!(
        conns.complete_handshake(false, Some(HandshakeFrame::Hello { worker_id: "b".to_string() })),
        Err(HandshakeError::UnexpectedFrame)
    );
    assert_eq!(conns.complete_handshake(true, Some(HandshakeFrame::Other)), Err(HandshakeError::UnexpectedFrame));
    assert_eq!(
        conns.complete_handshake(false, Some(HandshakeFrame::HelloAck { worker_id: "b".to_string() })),
        Ok("b".to_string())
    );
    assert_eq!(conns.count(), 2);
}

#[test]
fn peer_events_update_directory_and_groups() {
    let mut peers = PeerRegistry::new();
    peers.register(make_peer("b", vec![]));
    let mut groups = GroupManager::new("a".to_string());
    groups.create_group("g".to_string(), GroupPurpose::General, 0);

    let r = on_peer_event(&mut peers, &mut groups, "b", PeerEvent::Status { status: WorkerStatus::Busy }, 5);
    assert_eq!(r, PeerOutcome::Recorded);
    assert_eq!(peers.get("b").unwrap().status, WorkerStatus::Busy);

    on_peer_event(&mut peers, &mut groups, "b", PeerEvent::GroupJoin { group_id: "g".to_string(), role: "member".to_string() }, 6);
    assert_eq!(groups.get_group("g").unwrap().members[1].role, GroupRole::Member);

    groups.set_member_ready("g", "a");
    let r = on_peer_event(&mut peers, &mut groups, "b", PeerEvent::ShardReady { group_id: "g".to_string(), shard_index: 1 }, 7);
    assert_eq!(r, PeerOutcome::GroupReady);

    on_peer_event(&mut peers, &mut groups, "b", PeerEvent::GroupLeave { group_id: "g".to_string() }, 8);
    assert_eq!(groups.get_group("g").unwrap().members.len(), 1);

    on_peer_event(&mut peers, &mut groups, "b", PeerEvent::Disconnected, 9);
    assert!(peers.get("b").is_none());
}

#[test]
fn directory_records_other_workers() {
    let entry = |id: &str| PeerDirectoryEntry {
        worker_id: id.to_string(),
        name: id.to_string(),
        listen_addr: "10.0.0.1:9100".to_string(),
        capabilities: make_peer(id, vec![TaskType::Embeddings]).capabilities,
        status: WorkerStatus::Busy,
    };
    let mut peers = PeerRegistry::new();
    record_peer_directory(&mut peers, vec![entry("me"), entry("x"), entry("y"), entry("x")], "me", 77);
    assert_eq!(peers.peer_count(), 2);
    assert!(peers.get("me").is_none());
    assert_eq!(peers.get("x").unwrap().status, WorkerStatus::Ready);
    assert_eq!(peers.get("y").unwrap().last_seen, 77);
}

#[test]
fn oversize_frame_closes_only_that_connection() {
    let mut conns = PeerConnections::new(4);
    let mut peers = PeerRegistry::new();
    for id in ["a", "b"] {
        conns.attach(id).unwrap();
        peers.register(make_peer(id, vec![]));
    }
    let big = decode_frame(&[0xff, 0xff, 0xff, 0xff]);
    assert_eq!(on_read(&mut conns, &mut peers, "a", &big), ReadAction::Closed);
    assert!(!conns.is_connected("a"));
    assert!(conns.is_connected("b"));
    assert!(peers.get("a").is_none());
    assert!(peers.get("b").is_some());
    let ok = decode_frame(&[0, 0, 0, 1, 7]);
    assert!(matches!(ok, FrameDecode::Frame { .. }));
    assert_eq!(on_read(&mut conns, &mut peers, "b", &ok), ReadAction::Deliver);
    assert_eq!(on_read(&mut conns, &mut peers, "b", &FrameDecode::Incomplete), ReadAction::NeedMore);
    assert_eq!(conns.count(), 1);
}

#[test]
fn handshake_refusal_at_capacity() {
    let mut conns = PeerConnections::new(1);
    conns.attach("a").unwrap();
    assert_eq!(
        conns.complete_handshake(true, Some(HandshakeFrame::Hello { worker_id: "b".to_string() })),
        Err(HandshakeError::Refused(AttachError::AtCapacity))
    );
}
