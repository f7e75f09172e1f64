use worker::groups::{GroupManager, GroupMember, GroupPurpose, GroupRole, WorkGroup};
use worker::types::TaskType;

fn manager_with_group(purpose: GroupPurpose) -> (GroupManager, String) {
    let mut mgr = GroupManager::new("w1".to_string());
    let gid = "grp-0001".to_string();
    assert!(mgr.create_group(gid.clone(), purpose, 0));
    (mgr, gid)
}

#[test]
fn test_create_group() {
    let (mgr, gid) = manager_with_group(GroupPurpose::General);

    assert!(!gid.is_empty());
    assert_eq!(mgr.my_groups().len(), 1);

    let group = mgr.get_group(&gid).unwrap();
    assert_eq!(group.members.len(), 1);
    assert_eq!(group.members[0].worker_id, "w1");
    assert_eq!(group.members[0].role, GroupRole::Coordinator);
}

#[test]
fn create_with_taken_id_is_refused() {
    let (mut mgr, gid) = manager_with_group(GroupPurpose::General);
    assert!(!mgr.create_group(gid, GroupPurpose::General, 1));
}

#[test]
fn test_join_and_leave_group() {
    let (mut mgr, gid) = manager_with_group(GroupPurpose::General);

    mgr.add_member(&gid, "w2", GroupRole::Member);

    let group = mgr.get_group(&gid).unwrap();
    assert_eq!(group.members.len(), 2);

    mgr.remove_member(&gid, "w2");
    let group = mgr.get_group(&gid).unwrap();
    assert_eq!(group.members.len(), 1);
}

#[test]
fn test_shard_management() {
    let (mut mgr, gid) = manager_with_group(GroupPurpose::ModelShard {
        model_id: "llama-70b".to_string(),
        total_shards: 3,
    });

    mgr.add_member(&gid, "w2", GroupRole::Member);
    mgr.add_member(&gid, "w3", GroupRole::Member);

    mgr.set_shard_index(&gid, "w1", 0);
    mgr.set_shard_index(&gid, "w2", 1);
    mgr.set_shard_index(&gid, "w3", 2);

    assert_eq!(mgr.shard_owner(&gid, 0), Some("w1".to_string()));
    assert_eq!(mgr.shard_owner(&gid, 1), Some("w2".to_string()));
    assert_eq!(mgr.shard_owner(&gid, 2), Some("w3".to_string()));
    assert_eq!(mgr.shard_owner(&gid, 3), None);
}

#[test]
fn taken_shard_is_refused() {
    let (mut mgr, gid) = manager_with_group(GroupPurpose::General);
    mgr.add_member(&gid, "w2", GroupRole::Member);
    assert!(mgr.set_shard_index(&gid, "w1", 0));
    assert!(!mgr.set_shard_index(&gid, "w2", 0));
    assert!(mgr.set_shard_index(&gid, "w1", 0));
    assert!(!mgr.set_shard_index(&gid, "nobody", 5));
    assert_eq!(mgr.shard_owner(&gid, 0), Some("w1".to_string()));
}

#[test]
fn test_pipeline_management() {
    let (mut mgr, gid) = manager_with_group(GroupPurpose::TaskPipeline {
        pipeline_id: "embed-classify".to_string(),
        stages: vec![TaskType::Embeddings, TaskType::Classification],
    });

    mgr.add_member(&gid, "w2", GroupRole::Member);

    mgr.set_pipeline_stage(&gid, "w1", 0);
    mgr.set_pipeline_stage(&gid, "w2", 1);

    assert_eq!(mgr.next_in_pipeline(&gid, 0), Some("w2".to_string()));
    assert_eq!(mgr.next_in_pipeline(&gid, 1), None);
    assert_eq!(mgr.next_in_pipeline(&gid, usize::MAX), None);
}

#[test]
fn test_readiness() {
    let (mut mgr, gid) = manager_with_group(GroupPurpose::General);
    mgr.add_member(&gid, "w2", GroupRole::Member);

    assert!(!mgr.all_members_ready(&gid));

    mgr.set_member_ready(&gid, "w1");
    assert!(!mgr.all_members_ready(&gid));

    mgr.set_member_ready(&gid, "w2");
    assert!(mgr.all_members_ready(&gid));
    assert!(!mgr.all_members_ready("missing"));
}

#[test]
fn test_leave_last_member_removes_group() {
    let (mut mgr, gid) = manager_with_group(GroupPurpose::General);

    mgr.leave_group(&gid);
    assert!(mgr.get_group(&gid).is_none());
    assert_eq!(mgr.my_groups().len(), 0);
}

#[test]
fn add_group_checks_members() {
    let mut mgr = GroupManager::new("w9".to_string());
    let member = |id: &str, shard: Option<u32>| GroupMember {
        worker_id: id.to_string(),
        role: GroupRole::Member,
        shard_index: shard,
        pipeline_stage: None,
        ready: false,
    };
    let bad = WorkGroup {
        group_id: "g".to_string(),
        purpose: GroupPurpose::General,
        members: vec![member("a", Some(1)), member("b", Some(1))],
        created_at: 0,
    };
    assert!(!mgr.add_group(bad));
    let good = WorkGroup {
        group_id: "g".to_string(),
        purpose: GroupPurpose::General,
        members: vec![member("a", Some(1)), member("w9", Some(2))],
        created_at: 0,
    };
    assert!(mgr.add_group(good));
    assert_eq!(mgr.my_groups(), vec!["g".to_string()]);
    assert!(mgr.join_group("g", GroupRole::Member) == false);
    assert!(mgr.remove_group("g").is_some());
}
