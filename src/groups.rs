//! Work groups: logical groupings of workers for sharded or pipelined work,
//! with membership and readiness.

use vstd::prelude::*;
use crate::text::str_eq;
use crate::protocol::{GroupAssignedMessage, GroupMemberMessage, GroupPurposeMessage};
use crate::types::TaskType;

verus! {

/// Part a worker plays in a group.
#[derive(Debug, Clone, Copy, PartialEq, Eq, Structural)]
pub enum GroupRole {
    Coordinator,
    Member,
}

/// What a group is for.
#[derive(Debug, Clone)]
pub enum GroupPurpose {
    ModelShard { model_id: String, total_shards: u32 },
    TaskPipeline { pipeline_id: String, stages: Vec<TaskType> },
    General,
}

/// One worker's membership in a group.
#[derive(Debug, Clone)]
pub struct GroupMember {
    pub worker_id: String,
    pub role: GroupRole,
    pub shard_index: Option<u32>,
    pub pipeline_stage: Option<usize>,
    pub ready: bool,
}

/// A group of cooperating workers.
#[derive(Debug, Clone)]
pub struct WorkGroup {
    pub group_id: String,
    pub purpose: GroupPurpose,
    pub members: Vec<GroupMember>,
    /// Creation time, milliseconds since the Unix epoch.
    pub created_at: u64,
}

/// A fresh membership of worker `id`: not yet placed and not ready.
pub open spec fn is_new_member(m: GroupMember, id: Seq<char>, role: GroupRole) -> bool {
    m.worker_id@ == id && m.role == role && m.shard_index is None && m.pipeline_stage is None && !m.ready
}

/// Member ids, shard indices and pipeline stages are each unique.
pub open spec fn members_wf(ms: Seq<GroupMember>) -> bool {
    forall|i: int, j: int| #![trigger ms[i], ms[j]] 0 <= i < ms.len() && 0 <= j < ms.len() && i != j ==> member_pair_ok(ms[i], ms[j])
}

/// Two distinct members differ in worker id, and in any placement they have.
pub open spec fn member_pair_ok(a: GroupMember, b: GroupMember) -> bool {
    &&& a.worker_id@ != b.worker_id@
    &&& (a.shard_index is Some ==> a.shard_index != b.shard_index)
    &&& (a.pipeline_stage is Some ==> a.pipeline_stage != b.pipeline_stage)
}

/// Position of the member with this worker id, or -1.
pub open spec fn member_index(ms: Seq<GroupMember>, id: Seq<char>) -> int
    decreases ms.len(),
{
    if ms.len() == 0 {
        -1
    } else if ms.last().worker_id@ == id {
        ms.len() - 1
    } else {
        member_index(ms.drop_last(), id)
    }
}

pub proof fn lemma_member_index(ms: Seq<GroupMember>, id: Seq<char>)
    ensures
        -1 <= member_index(ms, id) < ms.len(),
        member_index(ms, id) >= 0 ==> ms[member_index(ms, id)].worker_id@ == id,
        member_index(ms, id) == -1 ==> forall|j: int| 0 <= j < ms.len() ==> ms[j].worker_id@ != id,
    decreases ms.len(),
{
    if ms.len() > 0 {
        lemma_member_index(ms.drop_last(), id);
        if ms.last().worker_id@ != id {
            assert forall|j: int| 0 <= j < ms.len() && member_index(ms, id) == -1 implies ms[j].worker_id@ != id by {
                if j < ms.len() - 1 {
                    assert(ms[j] == ms.drop_last()[j]);
                }
            }
        }
    }
}

/// Position of the group with this id, or -1.
pub open spec fn group_index(gs: Seq<WorkGroup>, id: Seq<char>) -> int
    decreases gs.len(),
{
    if gs.len() == 0 {
        -1
    } else if gs.last().group_id@ == id {
        gs.len() - 1
    } else {
        group_index(gs.drop_last(), id)
    }
}

pub proof fn lemma_group_index(gs: Seq<WorkGroup>, id: Seq<char>)
    ensures
        -1 <= group_index(gs, id) < gs.len(),
        group_index(gs, id) >= 0 ==> gs[group_index(gs, id)].group_id@ == id,
        group_index(gs, id) == -1 ==> forall|j: int| 0 <= j < gs.len() ==> gs[j].group_id@ != id,
    decreases gs.len(),
{
    if gs.len() > 0 {
        lemma_group_index(gs.drop_last(), id);
        if gs.last().group_id@ != id {
            assert forall|j: int| 0 <= j < gs.len() && group_index(gs, id) == -1 implies gs[j].group_id@ != id by {
                if j < gs.len() - 1 {
                    assert(gs[j] == gs.drop_last()[j]);
                }
            }
        }
    }
}

/// Group ids are unique and every group's members are well formed.
pub open spec fn groups_wf(gs: Seq<WorkGroup>) -> bool {
    &&& forall|i: int, j: int| 0 <= i < gs.len() && 0 <= j < gs.len() && i != j
        ==> (#[trigger] gs[i]).group_id@ != (#[trigger] gs[j]).group_id@
    &&& forall|i: int| 0 <= i < gs.len() ==> members_wf((#[trigger] gs[i]).members@)
}

/// The first member placed at shard `k`, if any.
pub open spec fn shard_holder(ms: Seq<GroupMember>, k: u32) -> Option<GroupMember> {
    if exists|i: int| 0 <= i < ms.len() && ms[i].shard_index == Some(k) {
        Some(ms[choose|i: int| 0 <= i < ms.len() && ms[i].shard_index == Some(k)])
    } else {
        None
    }
}

/// The first member at pipeline stage `k`, if any.
pub open spec fn stage_holder(ms: Seq<GroupMember>, k: usize) -> Option<GroupMember> {
    if exists|i: int| 0 <= i < ms.len() && ms[i].pipeline_stage == Some(k) {
        Some(ms[choose|i: int| 0 <= i < ms.len() && ms[i].pipeline_stage == Some(k)])
    } else {
        None
    }
}

fn find_member(ms: &Vec<GroupMember>, id: &str) -> (r: Option<usize>)
    requires
        members_wf(ms@),
    ensures
        match r {
            Some(i) => i == member_index(ms@, id@) && i < ms@.len(),
            None => member_index(ms@, id@) == -1,
        },
{
    let mut i: usize = 0;
    while i < ms.len()
        invariant
            members_wf(ms@),
            i <= ms@.len(),
            forall|j: int| 0 <= j < i ==> ms@[j].worker_id@ != id@,
        decreases ms@.len() - i,
    {
        if str_eq(ms[i].worker_id.as_str(), id) {
            proof {
                lemma_member_index(ms@, id@);
                let k = member_index(ms@, id@);
                assert(k == i as int) by {
                    if k != i as int {
                        assert(ms@[k].worker_id@ == ms@[i as int].worker_id@);
                        assert(ms@[k].worker_id@ != ms@[i as int].worker_id@);
                    }
                }
            }
            return Some(i);
        }
        i += 1;
    }
    proof { lemma_member_index(ms@, id@); }
    None
}

/// Position of a member placed at shard `k`.
fn find_shard(ms: &Vec<GroupMember>, k: u32) -> (r: Option<usize>)
    ensures
        match r {
            Some(i) => i < ms@.len() && ms@[i as int].shard_index == Some(k),
            None => forall|j: int| 0 <= j < ms@.len() ==> ms@[j].shard_index != Some(k),
        },
{
    let mut i: usize = 0;
    while i < ms.len()
        invariant
            i <= ms@.len(),
            forall|j: int| 0 <= j < i ==> ms@[j].shard_index != Some(k),
        decreases ms@.len() - i,
    {
        if ms[i].shard_index == Some(k) {
            return Some(i);
        }
        i += 1;
    }
    None
}

/// Position of a member at pipeline stage `k`.
fn find_stage(ms: &Vec<GroupMember>, k: usize) -> (r: Option<usize>)
    ensures
        match r {
            Some(i) => i < ms@.len() && ms@[i as int].pipeline_stage == Some(k),
            None => forall|j: int| 0 <= j < ms@.len() ==> ms@[j].pipeline_stage != Some(k),
        },
{
    let mut i: usize = 0;
    while i < ms.len()
        invariant
            i <= ms@.len(),
            forall|j: int| 0 <= j < i ==> ms@[j].pipeline_stage != Some(k),
        decreases ms@.len() - i,
    {
        if ms[i].pipeline_stage == Some(k) {
            return Some(i);
        }
        i += 1;
    }
    None
}

proof fn lemma_holder_unique_shard(ms: Seq<GroupMember>, i: int, k: u32)
    requires
        members_wf(ms),
        0 <= i < ms.len(),
        ms[i].shard_index == Some(k),
    ensures
        shard_holder(ms, k) == Some(ms[i]),
{
    let c = choose|c: int| 0 <= c < ms.len() && ms[c].shard_index == Some(k);
    if c != i {
        assert(ms[i].shard_index != ms[c].shard_index);
    }
}

proof fn lemma_holder_unique_stage(ms: Seq<GroupMember>, i: int, k: usize)
    requires
        members_wf(ms),
        0 <= i < ms.len(),
        ms[i].pipeline_stage == Some(k),
    ensures
        stage_holder(ms, k) == Some(ms[i]),
{
    let c = choose|c: int| 0 <= c < ms.len() && ms[c].pipeline_stage == Some(k);
    if c != i {
        assert(ms[i].pipeline_stage != ms[c].pipeline_stage);
    }
}

/// Whether every member is ready.
fn every_member_ready(ms: &Vec<GroupMember>) -> (r: bool)
    ensures
        r == forall|j: int| 0 <= j < ms@.len() ==> (#[trigger] ms@[j]).ready,
{
    let mut i: usize = 0;
    while i < ms.len()
        invariant
            i <= ms@.len(),
            forall|j: int| 0 <= j < i ==> (#[trigger] ms@[j]).ready,
        decreases ms@.len() - i,
    {
        if !ms[i].ready {
            return false;
        }
        i += 1;
    }
    true
}

/// Whether member ids, shard indices and pipeline stages are each unique.
pub fn members_valid(ms: &Vec<GroupMember>) -> (r: bool)
    ensures
        r == members_wf(ms@),
{
    let mut i: usize = 0;
    while i < ms.len()
        invariant
            i <= ms@.len(),
            forall|a: int, b: int| #![trigger ms@[a], ms@[b]] 0 <= a < i && 0 <= b < ms@.len() && a != b
                ==> member_pair_ok(ms@[a], ms@[b]),
        decreases ms@.len() - i,
    {
        let mut j: usize = 0;
        while j < ms.len()
            invariant
                i < ms@.len(),
                j <= ms@.len(),
                forall|b: int| 0 <= b < j && b != i ==> member_pair_ok(ms@[i as int], #[trigger] ms@[b]),
            decreases ms@.len() - j,
        {
            if j != i {
                let a = &ms[i];
                let b = &ms[j];
                if str_eq(a.worker_id.as_str(), b.worker_id.as_str()) {
                    assert(!members_wf(ms@)) by {
                        assert(ms@[i as int].worker_id@ == ms@[j as int].worker_id@);
                    }
                    return false;
                }
                if a.shard_index.is_some() && a.shard_index == b.shard_index {
                    assert(!members_wf(ms@)) by {
                        assert(ms@[i as int].worker_id@ != ms@[j as int].worker_id@);
                    }
                    return false;
                }
                if a.pipeline_stage.is_some() && a.pipeline_stage == b.pipeline_stage {
                    assert(!members_wf(ms@)) by {
                        assert(ms@[i as int].worker_id@ != ms@[j as int].worker_id@);
                    }
                    return false;
                }
            }
            j += 1;
        }
        i += 1;
    }
    true
}

/// `new` is `old` with the members of group `gi` replaced by `ms`.
pub open spec fn members_replaced(old: Seq<WorkGroup>, new: Seq<WorkGroup>, gi: int, ms: Seq<GroupMember>) -> bool {
    &&& 0 <= gi < old.len()
    &&& new.len() == old.len()
    &&& forall|k: int| 0 <= k < old.len() && k != gi ==> new[k] == old[k]
    &&& new[gi] == (WorkGroup { members: new[gi].members, ..old[gi] })
    &&& new[gi].members@ == ms
}

/// Ids of the groups that have worker `id` as a member, in order.
pub open spec fn groups_with_member(gs: Seq<WorkGroup>, id: Seq<char>) -> Seq<Seq<char>>
    decreases gs.len(),
{
    if gs.len() == 0 {
        Seq::empty()
    } else if member_index(gs.last().members@, id) >= 0 {
        groups_with_member(gs.drop_last(), id).push(gs.last().group_id@)
    } else {
        groups_with_member(gs.drop_last(), id)
    }
}

proof fn lemma_groups_update(s0: Seq<WorkGroup>, gi: int, g: WorkGroup)
    requires
        groups_wf(s0),
        0 <= gi < s0.len(),
        g.group_id@ == s0[gi].group_id@,
        members_wf(g.members@),
    ensures
        s0.remove(gi).insert(gi, g) == s0.update(gi, g),
        groups_wf(s0.update(gi, g)),
{
    assert(s0.remove(gi).insert(gi, g) =~= s0.update(gi, g));
    let t = s0.update(gi, g);
    assert forall|a: int, b: int| 0 <= a < t.len() && 0 <= b < t.len() && a != b
        implies (#[trigger] t[a]).group_id@ != (#[trigger] t[b]).group_id@ by {
        assert(t[a].group_id@ == s0[a].group_id@);
        assert(t[b].group_id@ == s0[b].group_id@);
    }
}

proof fn lemma_groups_remove(s0: Seq<WorkGroup>, gi: int)
    requires
        groups_wf(s0),
        0 <= gi < s0.len(),
    ensures
        groups_wf(s0.remove(gi)),
{
    let t = s0.remove(gi);
    assert forall|a: int, b: int| 0 <= a < t.len() && 0 <= b < t.len() && a != b
        implies (#[trigger] t[a]).group_id@ != (#[trigger] t[b]).group_id@ by {
        let a1 = if a < gi { a } else { a + 1 };
        let b1 = if b < gi { b } else { b + 1 };
        assert(t[a] == s0[a1] && t[b] == s0[b1]);
    }
    assert forall|a: int| 0 <= a < t.len() implies members_wf((#[trigger] t[a]).members@) by {
        let a1 = if a < gi { a } else { a + 1 };
        assert(t[a] == s0[a1]);
    }
}

/// Replaces member `i` by `m`, keeping the list well formed.
fn set_member(ms: &mut Vec<GroupMember>, i: usize, m: GroupMember)
    requires
        i < old(ms)@.len(),
    ensures
        final(ms)@ == old(ms)@.update(i as int, m),
{
    ms.remove(i);
    ms.insert(i, m);
    assert(ms@ =~= old(ms)@.update(i as int, m));
}

/// A member may change anything but its worker id, provided any placement
/// it takes up is held by no other member.
proof fn lemma_member_replace(ms: Seq<GroupMember>, i: int, m: GroupMember)
    requires
        members_wf(ms),
        0 <= i < ms.len(),
        m.worker_id@ == ms[i].worker_id@,
        m.shard_index is Some ==> forall|j: int| 0 <= j < ms.len() && j != i ==> ms[j].shard_index != m.shard_index,
        m.pipeline_stage is Some ==> forall|j: int| 0 <= j < ms.len() && j != i ==> ms[j].pipeline_stage != m.pipeline_stage,
    ensures
        members_wf(ms.update(i, m)),
{
    let t = ms.update(i, m);
    assert forall|a: int, b: int| #![trigger t[a], t[b]] 0 <= a < t.len() && 0 <= b < t.len() && a != b
        implies member_pair_ok(t[a], t[b]) by {
        assert(member_pair_ok(ms[a], ms[b]));
        if a == i {
            assert(member_pair_ok(ms[i], ms[b]));
            assert(member_pair_ok(ms[b], ms[i]));
        } else if b == i {
            assert(member_pair_ok(ms[a], ms[i]));
            assert(member_pair_ok(ms[i], ms[a]));
        }
    }
}

/// The groups this worker knows of, with its own worker id.
pub struct GroupManager {
    groups: Vec<WorkGroup>,
    my_worker_id: String,
}

impl GroupManager {
    /// The groups, in order of arrival.
    pub closed spec fn entries(&self) -> Seq<WorkGroup> {
        self.groups@
    }

    /// This worker's id.
    pub closed spec fn my_id(&self) -> Seq<char> {
        self.my_worker_id@
    }

    /// Group ids are unique; member ids, shard indices and pipeline stages
    /// are unique within each group.
    pub open spec fn wf(&self) -> bool {
        groups_wf(self.entries())
    }

    /// The group with this id, if any.
    pub open spec fn lookup(&self, gid: Seq<char>) -> Option<WorkGroup> {
        let i = group_index(self.entries(), gid);
        if i >= 0 { Some(self.entries()[i]) } else { None }
    }

    /// No groups yet.
    pub fn new(worker_id: String) -> (r: Self)
        ensures
            r.wf(),
            r.entries() == Seq::<WorkGroup>::empty(),
            r.my_id() == worker_id@,
    {
        GroupManager { groups: Vec::new(), my_worker_id: worker_id }
    }

    fn find_group(&self, gid: &str) -> (r: Option<usize>)
        requires
            self.wf(),
        ensures
            match r {
                Some(i) => i == group_index(self.entries(), gid@) && i < self.entries().len(),
                None => group_index(self.entries(), gid@) == -1,
            },
    {
        let mut i: usize = 0;
        while i < self.groups.len()
            invariant
                self.wf(),
                i <= self.groups@.len(),
                forall|j: int| 0 <= j < i ==> self.groups@[j].group_id@ != gid@,
            decreases self.groups@.len() - i,
        {
            if str_eq(self.groups[i].group_id.as_str(), gid) {
                proof {
                    lemma_group_index(self.groups@, gid@);
                    let k = group_index(self.groups@, gid@);
                    assert(k == i as int) by {
                        if k != i as int {
                            assert(self.groups@[k].group_id@ != self.groups@[i as int].group_id@);
                        }
                    }
                }
                return Some(i);
            }
            i += 1;
        }
        proof { lemma_group_index(self.groups@, gid@); }
        None
    }

    /// Starts a group under a fresh id with this worker as its coordinator.
    /// Refused when the id is taken.
    pub fn create_group(&mut self, group_id: String, purpose: GroupPurpose, now: u64) -> (r: bool)
        requires
            old(self).wf(),
        ensures
            final(self).wf(),
            final(self).my_id() == old(self).my_id(),
            r == (old(self).lookup(group_id@) is None),
            !r ==> final(self).entries() == old(self).entries(),
            r ==> final(self).entries().len() == old(self).entries().len() + 1
                && final(self).entries().drop_last() == old(self).entries()
                && final(self).entries().last().group_id@ == group_id@
                && final(self).entries().last().purpose == purpose
                && final(self).entries().last().created_at == now
                && final(self).entries().last().members@.len() == 1
                && is_new_member(final(self).entries().last().members@[0], old(self).my_id(), GroupRole::Coordinator),
    {
        if self.find_group(group_id.as_str()).is_some() {
            return false;
        }
        proof { lemma_group_index(self.groups@, group_id@); }
        let me = GroupMember {
            worker_id: self.my_worker_id.clone(),
            role: GroupRole::Coordinator,
            shard_index: None,
            pipeline_stage: None,
            ready: false,
        };
        let members = vec![me];
        let g = WorkGroup { group_id, purpose, members, created_at: now };
        let ghost s0 = self.groups@;
        self.groups.push(g);
        proof {
            let t = self.groups@;
            assert(t.drop_last() =~= s0);
            assert forall|a: int, b: int| 0 <= a < t.len() && 0 <= b < t.len() && a != b
                implies (#[trigger] t[a]).group_id@ != (#[trigger] t[b]).group_id@ by {
                if a < s0.len() { assert(t[a] == s0[a]); }
                if b < s0.len() { assert(t[b] == s0[b]); }
            }
            assert forall|a: int| 0 <= a < t.len() implies members_wf((#[trigger] t[a]).members@) by {
                if a < s0.len() { assert(t[a] == s0[a]); }
            }
        }
        true
    }

    /// Records a group assigned from outside, replacing one with the same
    /// id. Refused when its members repeat a worker id, a shard index or a
    /// pipeline stage.
    pub fn add_group(&mut self, group: WorkGroup) -> (r: bool)
        requires
            old(self).wf(),
        ensures
            final(self).wf(),
            final(self).my_id() == old(self).my_id(),
            r == members_wf(group.members@),
            !r ==> final(self).entries() == old(self).entries(),
            r ==> final(self).entries() == {
                let i = group_index(old(self).entries(), group.group_id@);
                if i >= 0 { old(self).entries().update(i, group) } else { old(self).entries().push(group) }
            },
    {
        if !members_valid(&group.members) {
            return false;
        }
        let ghost s0 = self.groups@;
        let ghost gid = group.group_id@;
        proof { lemma_group_index(s0, gid); }
        match self.find_group(group.group_id.as_str()) {
            Some(i) => {
                proof { lemma_groups_update(s0, i as int, group); }
                self.groups.remove(i);
                self.groups.insert(i, group);
            },
            None => {
                self.groups.push(group);
                proof {
                    let t = self.groups@;
                    assert forall|a: int, b: int| 0 <= a < t.len() && 0 <= b < t.len() && a != b
                        implies (#[trigger] t[a]).group_id@ != (#[trigger] t[b]).group_id@ by {
                        if a < s0.len() { assert(t[a] == s0[a]); }
                        if b < s0.len() { assert(t[b] == s0[b]); }
                    }
                    assert forall|a: int| 0 <= a < t.len() implies members_wf((#[trigger] t[a]).members@) by {
                        if a < s0.len() { assert(t[a] == s0[a]); }
                    }
                }
            },
        }
        true
    }

    /// Drops a group and returns it.
    pub fn remove_group(&mut self, group_id: &str) -> (r: Option<WorkGroup>)
        requires
            old(self).wf(),
        ensures
            final(self).wf(),
            final(self).my_id() == old(self).my_id(),
            r == old(self).lookup(group_id@),
            r is Some ==> final(self).entries() == old(self).entries().remove(group_index(old(self).entries(), group_id@)),
            r is None ==> final(self).entries() == old(self).entries(),
    {
        match self.find_group(group_id) {
            Some(i) => {
                proof { lemma_groups_remove(self.groups@, i as int); }
                Some(self.groups.remove(i))
            },
            None => None,
        }
    }

    /// The group with this id.
    pub fn get_group(&self, group_id: &str) -> (r: Option<&WorkGroup>)
        requires
            self.wf(),
        ensures
            match r {
                Some(g) => self.lookup(group_id@) == Some(*g),
                None => self.lookup(group_id@) is None,
            },
    {
        match self.find_group(group_id) {
            Some(i) => Some(&self.groups[i]),
            None => None,
        }
    }

    /// Ids of the groups this worker is a member of, in order.
    pub fn my_groups(&self) -> (r: Vec<String>)
        requires
            self.wf(),
        ensures
            r@.map_values(|s: String| s@) == groups_with_member(self.entries(), self.my_id()),
    {
        let mut out: Vec<String> = Vec::new();
        let mut i: usize = 0;
        while i < self.groups.len()
            invariant
                self.wf(),
                i <= self.groups@.len(),
                out@.map_values(|s: String| s@) == groups_with_member(self.groups@.subrange(0, i as int), self.my_worker_id@),
            decreases self.groups@.len() - i,
        {
            proof {
                assert(self.groups@.subrange(0, i as int + 1).drop_last() =~= self.groups@.subrange(0, i as int));
                assert(members_wf(self.groups@[i as int].members@));
            }
            if find_member(&self.groups[i].members, self.my_worker_id.as_str()).is_some() {
                let ghost before = out@;
                out.push(self.groups[i].group_id.clone());
                assert(out@.map_values(|s: String| s@) =~= before.map_values(|s: String| s@).push(self.groups@[i as int].group_id@));
            }
            i += 1;
        }
        assert(self.groups@.subrange(0, i as int) =~= self.groups@);
        out
    }

    /// Adds worker `worker_id` to a group once. Answers whether it was added.
    pub fn add_member(&mut self, group_id: &str, worker_id: &str, role: GroupRole) -> (r: bool)
        requires
            old(self).wf(),
        ensures
            final(self).wf(),
            final(self).my_id() == old(self).my_id(),
            r == (old(self).lookup(group_id@) is Some
                && member_index(old(self).lookup(group_id@).unwrap().members@, worker_id@) == -1),
            !r ==> final(self).entries() == old(self).entries(),
            r ==> {
                let gi = group_index(old(self).entries(), group_id@);
                let ms = old(self).entries()[gi].members@;
                let new = final(self).entries()[gi].members@;
                &&& members_replaced(old(self).entries(), final(self).entries(), gi, new)
                &&& new.len() == ms.len() + 1
                &&& new.drop_last() == ms
                &&& is_new_member(new.last(), worker_id@, role)
            },
    {
        let gi = match self.find_group(group_id) {
            Some(i) => i,
            None => return false,
        };
        proof { lemma_group_index(self.groups@, group_id@); }
        if find_member(&self.groups[gi].members, worker_id).is_some() {
            return false;
        }
        let ghost s0 = self.groups@;
        let ghost ms0 = s0[gi as int].members@;
        proof { lemma_member_index(ms0, worker_id@); }
        let mut g = self.groups.remove(gi);
        let m = GroupMember {
            worker_id: worker_id.to_owned(),
            role,
            shard_index: None,
            pipeline_stage: None,
            ready: false,
        };
        g.members.push(m);
        proof {
            let t = g.members@;
            assert(t.drop_last() =~= ms0);
            assert forall|a: int, b: int| #![trigger t[a], t[b]] 0 <= a < t.len() && 0 <= b < t.len() && a != b
                implies member_pair_ok(t[a], t[b]) by {
                if a < ms0.len() && b < ms0.len() {
                    assert(t[a] == ms0[a] && t[b] == ms0[b]);
                    assert(member_pair_ok(ms0[a], ms0[b]));
                } else if a < ms0.len() {
                    assert(t[a] == ms0[a]);
                } else {
                    assert(t[b] == ms0[b]);
                }
            }
            lemma_groups_update(s0, gi as int, g);
        }
        self.groups.insert(gi, g);
        true
    }

    /// Takes worker `worker_id` out of a group; a group left without members
    /// is removed. Answers whether a member was removed.
    pub fn remove_member(&mut self, group_id: &str, worker_id: &str) -> (r: bool)
        requires
            old(self).wf(),
        ensures
            final(self).wf(),
            final(self).my_id() == old(self).my_id(),
            r == (old(self).lookup(group_id@) is Some
                && member_index(old(self).lookup(group_id@).unwrap().members@, worker_id@) >= 0),
            !r ==> final(self).entries() == old(self).entries(),
            r ==> {
                let gi = group_index(old(self).entries(), group_id@);
                let ms = old(self).entries()[gi].members@;
                let rest = ms.remove(member_index(ms, worker_id@));
                if rest.len() == 0 {
                    final(self).entries() == old(self).entries().remove(gi)
                } else {
                    members_replaced(old(self).entries(), final(self).entries(), gi, rest)
                }
            },
    {
        let gi = match self.find_group(group_id) {
            Some(i) => i,
            None => return false,
        };
        proof { lemma_group_index(self.groups@, group_id@); }
        let mi = match find_member(&self.groups[gi].members, worker_id) {
            Some(m) => m,
            None => return false,
        };
        let ghost s0 = self.groups@;
        let ghost ms0 = s0[gi as int].members@;
        proof { lemma_groups_remove(s0, gi as int); }
        let mut g = self.groups.remove(gi);
        g.members.remove(mi);
        if g.members.len() == 0 {
            return true;
        }
        proof {
            let t = g.members@;
            assert forall|a: int, b: int| #![trigger t[a], t[b]] 0 <= a < t.len() && 0 <= b < t.len() && a != b
                implies member_pair_ok(t[a], t[b]) by {
                let a1 = if a < mi { a } else { a + 1 };
                let b1 = if b < mi { b } else { b + 1 };
                assert(t[a] == ms0[a1] && t[b] == ms0[b1]);
                assert(member_pair_ok(ms0[a1], ms0[b1]));
            }
            lemma_groups_update(s0, gi as int, g);
        }
        self.groups.insert(gi, g);
        true
    }

    /// Joins a group as this worker.
    pub fn join_group(&mut self, group_id: &str, role: GroupRole) -> (r: bool)
        requires
            old(self).wf(),
        ensures
            final(self).wf(),
            final(self).my_id() == old(self).my_id(),
            r == (old(self).lookup(group_id@) is Some
                && member_index(old(self).lookup(group_id@).unwrap().members@, old(self).my_id()) == -1),
            !r ==> final(self).entries() == old(self).entries(),
            r ==> {
                let gi = group_index(old(self).entries(), group_id@);
                let ms = old(self).entries()[gi].members@;
                let new = final(self).entries()[gi].members@;
                &&& members_replaced(old(self).entries(), final(self).entries(), gi, new)
                &&& new.drop_last() == ms
                &&& is_new_member(new.last(), old(self).my_id(), role)
            },
    {
        let me = self.my_worker_id.clone();
        self.add_member(group_id, me.as_str(), role)
    }

    /// Leaves a group as this worker; the group goes once nobody is left.
    pub fn leave_group(&mut self, group_id: &str) -> (r: bool)
        requires
            old(self).wf(),
        ensures
            final(self).wf(),
            final(self).my_id() == old(self).my_id(),
            r == (old(self).lookup(group_id@) is Some
                && member_index(old(self).lookup(group_id@).unwrap().members@, old(self).my_id()) >= 0),
            !r ==> final(self).entries() == old(self).entries(),
            r ==> {
                let gi = group_index(old(self).entries(), group_id@);
                let ms = old(self).entries()[gi].members@;
                let rest = ms.remove(member_index(ms, old(self).my_id()));
                if rest.len() == 0 {
                    final(self).entries() == old(self).entries().remove(gi)
                } else {
                    members_replaced(old(self).entries(), final(self).entries(), gi, rest)
                }
            },
    {
        let me = self.my_worker_id.clone();
        self.remove_member(group_id, me.as_str())
    }

    /// Marks worker `worker_id` ready in a group. Answers whether it is a
    /// member there.
    pub fn set_member_ready(&mut self, group_id: &str, worker_id: &str) -> (r: bool)
        requires
            old(self).wf(),
        ensures
            final(self).wf(),
            final(self).my_id() == old(self).my_id(),
            r == (old(self).lookup(group_id@) is Some
                && member_index(old(self).lookup(group_id@).unwrap().members@, worker_id@) >= 0),
            !r ==> final(self).entries() == old(self).entries(),
            r ==> {
                let gi = group_index(old(self).entries(), group_id@);
                let ms = old(self).entries()[gi].members@;
                let mi = member_index(ms, worker_id@);
                members_replaced(old(self).entries(), final(self).entries(), gi,
                    ms.update(mi, GroupMember { ready: true, ..ms[mi] }))
            },
    {
        let gi = match self.find_group(group_id) {
            Some(i) => i,
            None => return false,
        };
        proof { lemma_group_index(self.groups@, group_id@); }
        let mi = match find_member(&self.groups[gi].members, worker_id) {
            Some(m) => m,
            None => return false,
        };
        let ghost s0 = self.groups@;
        let ghost ms0 = s0[gi as int].members@;
        let mut g = self.groups.remove(gi);
        let mut m = g.members.remove(mi);
        m.ready = true;
        g.members.insert(mi, m);
        proof {
            assert(g.members@ =~= ms0.update(mi as int, m));
            lemma_member_replace(ms0, mi as int, m);
            lemma_groups_update(s0, gi as int, g);
        }
        self.groups.insert(gi, g);
        true
    }

    /// Places worker `worker_id` at shard `shard_index` of a group. Refused
    /// when it is not a member there or another member holds that shard.
    pub fn set_shard_index(&mut self, group_id: &str, worker_id: &str, shard_index: u32) -> (r: bool)
        requires
            old(self).wf(),
        ensures
            final(self).wf(),
            final(self).my_id() == old(self).my_id(),
            r == (old(self).lookup(group_id@) is Some && {
                let ms = old(self).lookup(group_id@).unwrap().members@;
                let mi = member_index(ms, worker_id@);
                mi >= 0 && forall|j: int| 0 <= j < ms.len() && j != mi ==> ms[j].shard_index != Some(shard_index)
            }),
            !r ==> final(self).entries() == old(self).entries(),
            r ==> {
                let gi = group_index(old(self).entries(), group_id@);
                let ms = old(self).entries()[gi].members@;
                let mi = member_index(ms, worker_id@);
                members_replaced(old(self).entries(), final(self).entries(), gi,
                    ms.update(mi, GroupMember { shard_index: Some(shard_index), ..ms[mi] }))
            },
    {
        let gi = match self.find_group(group_id) {
            Some(i) => i,
            None => return false,
        };
        proof { lemma_group_index(self.groups@, group_id@); }
        let mi = match find_member(&self.groups[gi].members, worker_id) {
            Some(m) => m,
            None => return false,
        };
        let ghost s0 = self.groups@;
        let ghost ms0 = s0[gi as int].members@;
        match find_shard(&self.groups[gi].members, shard_index) {
            Some(h) => {
                if h != mi {
                    return false;
                }
                assert forall|j: int| 0 <= j < ms0.len() && j != mi implies ms0[j].shard_index != Some(shard_index) by {
                    assert(member_pair_ok(ms0[mi as int], ms0[j]));
                }
            },
            None => {},
        }
        let mut g = self.groups.remove(gi);
        let mut m = g.members.remove(mi);
        m.shard_index = Some(shard_index);
        g.members.insert(mi, m);
        proof {
            assert(g.members@ =~= ms0.update(mi as int, m));
            lemma_member_replace(ms0, mi as int, m);
            lemma_groups_update(s0, gi as int, g);
        }
        self.groups.insert(gi, g);
        true
    }

    /// Places worker `worker_id` at pipeline stage `stage` of a group.
    /// Refused when it is not a member there or another member holds that
    /// stage.
    pub fn set_pipeline_stage(&mut self, group_id: &str, worker_id: &str, stage: usize) -> (r: bool)
        requires
            old(self).wf(),
        ensures
            final(self).wf(),
            final(self).my_id() == old(self).my_id(),
            r == (old(self).lookup(group_id@) is Some && {
                let ms = old(self).lookup(group_id@).unwrap().members@;
                let mi = member_index(ms, worker_id@);
                mi >= 0 && forall|j: int| 0 <= j < ms.len() && j != mi ==> ms[j].pipeline_stage != Some(stage)
            }),
            !r ==> final(self).entries() == old(self).entries(),
            r ==> {
                let gi = group_index(old(self).entries(), group_id@);
                let ms = old(self).entries()[gi].members@;
                let mi = member_index(ms, worker_id@);
                members_replaced(old(self).entries(), final(self).entries(), gi,
                    ms.update(mi, GroupMember { pipeline_stage: Some(stage), ..ms[mi] }))
            },
    {
        let gi = match self.find_group(group_id) {
            Some(i) => i,
            None => return false,
        };
        proof { lemma_group_index(self.groups@, group_id@); }
        let mi = match find_member(&self.groups[gi].members, worker_id) {
            Some(m) => m,
            None => return false,
        };
        let ghost s0 = self.groups@;
        let ghost ms0 = s0[gi as int].members@;
        match find_stage(&self.groups[gi].members, stage) {
            Some(h) => {
                if h != mi {
                    return false;
                }
                assert forall|j: int| 0 <= j < ms0.len() && j != mi implies ms0[j].pipeline_stage != Some(stage) by {
                    assert(member_pair_ok(ms0[mi as int], ms0[j]));
                }
            },
            None => {},
        }
        let mut g = self.groups.remove(gi);
        let mut m = g.members.remove(mi);
        m.pipeline_stage = Some(stage);
        g.members.insert(mi, m);
        proof {
            assert(g.members@ =~= ms0.update(mi as int, m));
            lemma_member_replace(ms0, mi as int, m);
            lemma_groups_update(s0, gi as int, g);
        }
        self.groups.insert(gi, g);
        true
    }

    /// Whether the group exists and every member of it is ready.
    pub fn all_members_ready(&self, group_id: &str) -> (r: bool)
        requires
            self.wf(),
        ensures
            r == (self.lookup(group_id@) is Some && forall|j: int| 0 <= j < self.lookup(group_id@).unwrap().members@.len()
                ==> (#[trigger] self.lookup(group_id@).unwrap().members@[j]).ready),
    {
        match self.find_group(group_id) {
            Some(i) => every_member_ready(&self.groups[i].members),
            None => false,
        }
    }

    /// The worker at the stage after `current_stage` of a pipeline group.
    pub fn next_in_pipeline(&self, group_id: &str, current_stage: usize) -> (r: Option<String>)
        requires
            self.wf(),
        ensures
            match r {
                Some(w) => self.lookup(group_id@) is Some && current_stage < usize::MAX
                    && stage_holder(self.lookup(group_id@).unwrap().members@, (current_stage + 1) as usize) is Some
                    && w@ == stage_holder(self.lookup(group_id@).unwrap().members@, (current_stage + 1) as usize).unwrap().worker_id@,
                None => self.lookup(group_id@) is None || current_stage == usize::MAX
                    || stage_holder(self.lookup(group_id@).unwrap().members@, (current_stage + 1) as usize) is None,
            },
    {
        if current_stage == usize::MAX {
            return None;
        }
        let gi = match self.find_group(group_id) {
            Some(i) => i,
            None => return None,
        };
        proof { lemma_group_index(self.groups@, group_id@); }
        let ms = &self.groups[gi].members;
        match find_stage(ms, current_stage + 1) {
            Some(h) => {
                proof { lemma_holder_unique_stage(ms@, h as int, (current_stage + 1) as usize); }
                Some(ms[h].worker_id.clone())
            },
            None => None,
        }
    }

    /// The worker holding shard `shard_index` of a group.
    pub fn shard_owner(&self, group_id: &str, shard_index: u32) -> (r: Option<String>)
        requires
            self.wf(),
        ensures
            match r {
                Some(w) => self.lookup(group_id@) is Some
                    && shard_holder(self.lookup(group_id@).unwrap().members@, shard_index) is Some
                    && w@ == shard_holder(self.lookup(group_id@).unwrap().members@, shard_index).unwrap().worker_id@,
                None => self.lookup(group_id@) is None
                    || shard_holder(self.lookup(group_id@).unwrap().members@, shard_index) is None,
            },
    {
        let gi = match self.find_group(group_id) {
            Some(i) => i,
            None => return None,
        };
        proof { lemma_group_index(self.groups@, group_id@); }
        let ms = &self.groups[gi].members;
        match find_shard(ms, shard_index) {
            Some(h) => {
                proof { lemma_holder_unique_shard(ms@, h as int, shard_index); }
                Some(ms[h].worker_id.clone())
            },
            None => None,
        }
    }
}

/// The membership a sent member stands for: not yet ready.
pub open spec fn member_of_message(m: GroupMemberMessage, g: GroupMember) -> bool {
    &&& g.worker_id == m.worker_id
    &&& g.role == if m.role@ == "coordinator"@ { GroupRole::Coordinator } else { GroupRole::Member }
    &&& g.shard_index == m.shard_index
    &&& g.pipeline_stage == match m.pipeline_stage { Some(s) => Some(s as usize), None => None::<usize> }
    &&& !g.ready
}

/// The group an assignment describes, created at `now`.
pub fn group_from_message(msg: GroupAssignedMessage, now: u64) -> (r: WorkGroup)
    ensures
        r.group_id == msg.group_id,
        r.created_at == now,
        r.members@.len() == msg.members@.len(),
        forall|i: int| 0 <= i < msg.members@.len() ==> member_of_message(msg.members@[i], #[trigger] r.members@[i]),
        match (msg.purpose, r.purpose) {
            (GroupPurposeMessage::ModelShard { model_id: a, total_shards: n }, GroupPurpose::ModelShard { model_id: b, total_shards: m }) => a == b && n == m,
            (GroupPurposeMessage::TaskPipeline { pipeline_id: a, stages: x }, GroupPurpose::TaskPipeline { pipeline_id: b, stages: y }) => a == b && x == y,
            (GroupPurposeMessage::General, GroupPurpose::General) => true,
            _ => false,
        },
{
    let purpose = match msg.purpose {
        GroupPurposeMessage::ModelShard { model_id, total_shards } => GroupPurpose::ModelShard { model_id, total_shards },
        GroupPurposeMessage::TaskPipeline { pipeline_id, stages } => GroupPurpose::TaskPipeline { pipeline_id, stages },
        GroupPurposeMessage::General => GroupPurpose::General,
    };
    let mut members: Vec<GroupMember> = Vec::new();
    let mut i: usize = 0;
    while i < msg.members.len()
        invariant
            i <= msg.members@.len(),
            members@.len() == i,
            forall|k: int| 0 <= k < i ==> member_of_message(msg.members@[k], #[trigger] members@[k]),
        decreases msg.members@.len() - i,
    {
        let m = &msg.members[i];
        let role = if str_eq(m.role.as_str(), "coordinator") { GroupRole::Coordinator } else { GroupRole::Member };
        let stage: Option<usize> = match m.pipeline_stage {
            Some(s) => Some(s as usize),
            None => None,
        };
        members.push(GroupMember {
            worker_id: m.worker_id.clone(),
            role,
            shard_index: m.shard_index,
            pipeline_stage: stage,
            ready: false,
        });
        i += 1;
    }
    WorkGroup { group_id: msg.group_id, purpose, members, created_at: now }
}

} // verus!
