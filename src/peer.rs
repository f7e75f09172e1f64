//! Directory of known peers, keyed by worker id.
//!
//! Timestamps are milliseconds on a monotonic clock, handed in by the caller.

use vstd::prelude::*;
use crate::protocol::{WorkerCapabilities, WorkerStatus};
use crate::text::str_eq;
use crate::types::TaskType;

verus! {

/// What this worker knows of one peer.
#[derive(Debug, Clone)]
pub struct PeerInfo {
    pub worker_id: String,
    pub name: String,
    /// `host:port` on which the peer accepts mesh connections.
    pub listen_addr: String,
    pub capabilities: WorkerCapabilities,
    pub status: WorkerStatus,
    pub last_seen: u64,
    pub latency_ms: Option<u32>,
    pub groups: Vec<String>,
}

impl PeerInfo {
    pub open spec fn id(&self) -> Seq<char> {
        self.worker_id@
    }

    /// The group ids, as text.
    pub open spec fn group_ids(&self) -> Seq<Seq<char>> {
        self.groups@.map_values(|g: String| g@)
    }

    /// Latency used for ranking; unknown ranks last.
    pub open spec fn rank(&self) -> u32 {
        match self.latency_ms {
            Some(l) => l,
            None => u32::MAX,
        }
    }

    /// A ready peer advertising tasks of kind `t`.
    pub open spec fn candidate_for(&self, t: TaskType) -> bool {
        self.status == WorkerStatus::Ready && self.capabilities.supports_spec(t)
    }
}

/// No two peers share a worker id.
pub open spec fn peer_ids_unique(s: Seq<PeerInfo>) -> bool {
    forall|i: int, j: int| 0 <= i < s.len() && 0 <= j < s.len() && i != j ==> s[i].id() != s[j].id()
}

/// Position of the peer with this id, or -1.
pub open spec fn peer_index(s: Seq<PeerInfo>, id: Seq<char>) -> int
    decreases s.len(),
{
    if s.len() == 0 {
        -1
    } else if s.last().id() == id {
        s.len() - 1
    } else {
        peer_index(s.drop_last(), id)
    }
}

pub proof fn lemma_peer_index(s: Seq<PeerInfo>, id: Seq<char>)
    ensures
        -1 <= peer_index(s, id) < s.len(),
        peer_index(s, id) >= 0 ==> s[peer_index(s, id)].id() == id,
        peer_index(s, id) == -1 ==> forall|j: int| 0 <= j < s.len() ==> s[j].id() != id,
    decreases s.len(),
{
    if s.len() > 0 {
        lemma_peer_index(s.drop_last(), id);
        if s.last().id() != id {
            assert forall|j: int| 0 <= j < s.len() && peer_index(s, id) == -1 implies s[j].id() != id by {
                if j < s.len() - 1 {
                    assert(s[j] == s.drop_last()[j]);
                }
            }
        }
    }
}

/// Peers advertising tasks of kind `t`.
pub open spec fn has_capability(t: TaskType) -> spec_fn(PeerInfo) -> bool {
    |p: PeerInfo| p.capabilities.supports_spec(t)
}

/// Peers that belong to group `gid`.
pub open spec fn in_group(gid: Seq<char>) -> spec_fn(PeerInfo) -> bool {
    |p: PeerInfo| p.group_ids().contains(gid)
}

/// Peers stale at `now`.
pub open spec fn stale_at(now: u64, timeout_ms: u64) -> spec_fn(PeerInfo) -> bool {
    |p: PeerInfo| is_stale(p.last_seen, now, timeout_ms)
}

/// Peers not stale at `now`.
pub open spec fn live_at(now: u64, timeout_ms: u64) -> spec_fn(PeerInfo) -> bool {
    |p: PeerInfo| !is_stale(p.last_seen, now, timeout_ms)
}

/// Group ids other than `gid`.
pub open spec fn other_group(gid: Seq<char>) -> spec_fn(Seq<char>) -> bool {
    |g: Seq<char>| g != gid
}

/// One more element of a prefix, filtered.
pub proof fn lemma_filter_step<A>(s: Seq<A>, i: int, pred: spec_fn(A) -> bool)
    requires
        0 <= i < s.len(),
    ensures
        s.subrange(0, i + 1).filter(pred) == if pred(s[i]) {
            s.subrange(0, i).filter(pred).push(s[i])
        } else {
            s.subrange(0, i).filter(pred)
        },
{
    assert(s.subrange(0, i + 1) =~= s.subrange(0, i).push(s[i]));
    s.subrange(0, i).lemma_filter_push(s[i], pred);
}

/// With a zero timeout every peer counts as stale: pruning leaves none.
pub proof fn lemma_prune_zero_removes_all(s: Seq<PeerInfo>, now: u64)
    ensures
        s.filter(live_at(now, 0)).len() == 0,
{
    assert forall|i: int| 0 <= i < s.len() implies !live_at(now, 0)(s[i]) by {}
    s.lemma_all_neg_filter_empty(live_at(now, 0));
}

/// Replacing a record by one of the same id moves no other id.
pub proof fn lemma_peer_index_update(s: Seq<PeerInfo>, i: int, p: PeerInfo, x: Seq<char>)
    requires
        0 <= i < s.len(),
        p.id() == s[i].id(),
    ensures
        peer_index(s.update(i, p), x) == peer_index(s, x),
    decreases s.len(),
{
    let t = s.update(i, p);
    if i == s.len() - 1 {
        assert(t.drop_last() =~= s.drop_last());
    } else {
        assert(t.drop_last() =~= s.drop_last().update(i, p));
        lemma_peer_index_update(s.drop_last(), i, p, x);
    }
}

/// Appending a record of another id moves no id.
pub proof fn lemma_peer_index_push(s: Seq<PeerInfo>, p: PeerInfo, x: Seq<char>)
    requires
        p.id() != x,
    ensures
        peer_index(s.push(p), x) == peer_index(s, x),
{
    assert(s.push(p).drop_last() =~= s);
}

/// A peer's record after it reported `status` at `now`.
pub open spec fn with_status(p: PeerInfo, status: WorkerStatus, now: u64) -> PeerInfo {
    PeerInfo { status, last_seen: now, ..p }
}

/// A peer's record after a latency measurement at `now`.
pub open spec fn with_latency(p: PeerInfo, latency_ms: u32, now: u64) -> PeerInfo {
    PeerInfo { latency_ms: Some(latency_ms), last_seen: now, ..p }
}

/// A peer's record after it was heard from at `now`.
pub open spec fn touched(p: PeerInfo, now: u64) -> PeerInfo {
    PeerInfo { last_seen: now, ..p }
}

/// Whether a peer last heard from at `last_seen` counts as stale at `now`:
/// at least `timeout_ms` have passed.
pub open spec fn is_stale(last_seen: u64, now: u64, timeout_ms: u64) -> bool {
    now >= last_seen && now - last_seen >= timeout_ms || now < last_seen && timeout_ms == 0
}

/// The directory of known peers.
pub struct PeerRegistry {
    peers: Vec<PeerInfo>,
}

impl PeerRegistry {
    /// The peers, in insertion order.
    pub closed spec fn entries(&self) -> Seq<PeerInfo> {
        self.peers@
    }

    /// At most one record per worker id.
    pub open spec fn wf(&self) -> bool {
        peer_ids_unique(self.entries())
    }

    /// The record for a worker id, if any.
    pub open spec fn lookup(&self, id: Seq<char>) -> Option<PeerInfo> {
        let i = peer_index(self.entries(), id);
        if i >= 0 { Some(self.entries()[i]) } else { None }
    }

    /// An empty directory.
    pub fn new() -> (r: Self)
        ensures
            r.wf(),
            r.entries() == Seq::<PeerInfo>::empty(),
    {
        PeerRegistry { peers: Vec::new() }
    }

    fn find(&self, worker_id: &str) -> (r: Option<usize>)
        requires
            self.wf(),
        ensures
            match r {
                Some(i) => i == peer_index(self.entries(), worker_id@) && i < self.entries().len(),
                None => peer_index(self.entries(), worker_id@) == -1,
            },
    {
        let mut i: usize = 0;
        while i < self.peers.len()
            invariant
                self.wf(),
                i <= self.peers@.len(),
                forall|j: int| 0 <= j < i ==> self.peers@[j].id() != worker_id@,
            decreases self.peers@.len() - i,
        {
            if str_eq(self.peers[i].worker_id.as_str(), worker_id) {
                proof { lemma_peer_index(self.peers@, worker_id@); }
                return Some(i);
            }
            i += 1;
        }
        proof { lemma_peer_index(self.peers@, worker_id@); }
        None
    }

    /// Replaces the record at `i` by one with the same id.
    fn put(&mut self, i: usize, p: PeerInfo)
        requires
            old(self).wf(),
            i < old(self).entries().len(),
            p.id() == old(self).entries()[i as int].id(),
        ensures
            final(self).wf(),
            final(self).entries() == old(self).entries().update(i as int, p),
    {
        let ghost s0 = self.peers@;
        self.peers.set(i, p);
        assert forall|a: int, b: int| 0 <= a < self.peers@.len() && 0 <= b < self.peers@.len() && a != b
            implies self.peers@[a].id() != self.peers@[b].id() by {
            assert(self.peers@[a].id() == s0[a].id());
            assert(self.peers@[b].id() == s0[b].id());
        }
    }

    /// Adds a peer, replacing any record with the same worker id.
    pub fn register(&mut self, info: PeerInfo)
        requires
            old(self).wf(),
        ensures
            final(self).wf(),
            final(self).lookup(info.id()) == Some(info),
            forall|x: Seq<char>| x != info.id() ==> #[trigger] final(self).lookup(x) == old(self).lookup(x),
            final(self).entries() == {
                let i = peer_index(old(self).entries(), info.id());
                if i >= 0 { old(self).entries().update(i, info) } else { old(self).entries().push(info) }
            },
    {
        let ghost id = info.id();
        match self.find(info.worker_id.as_str()) {
            Some(i) => {
                let ghost s0 = self.peers@;
                proof { lemma_peer_index(s0, id); }
                self.put(i, info);
                proof {
                    assert forall|x: Seq<char>| x != id implies #[trigger] self.lookup(x) == old(self).lookup(x) by {
                        lemma_peer_index_update(s0, i as int, info, x);
                        lemma_peer_index(s0, x);
                    }
                    lemma_peer_index(self.peers@, id);
                    let k = peer_index(self.peers@, id);
                    assert(k == i as int) by {
                        if k != i as int {
                            assert(self.peers@[k].id() != self.peers@[i as int].id());
                        }
                    }
                }
            },
            None => {
                let ghost s0 = self.peers@;
                proof { lemma_peer_index(s0, id); }
                self.peers.push(info);
                assert forall|a: int, b: int| 0 <= a < self.peers@.len() && 0 <= b < self.peers@.len() && a != b
                    implies self.peers@[a].id() != self.peers@[b].id() by {
                    if a < s0.len() {
                        assert(self.peers@[a] == s0[a]);
                    }
                    if b < s0.len() {
                        assert(self.peers@[b] == s0[b]);
                    }
                }
                proof {
                    assert forall|x: Seq<char>| x != id implies #[trigger] self.lookup(x) == old(self).lookup(x) by {
                        lemma_peer_index_push(s0, info, x);
                        lemma_peer_index(s0, x);
                    }
                    assert(self.peers@.drop_last() =~= s0);
                }
            },
        }
    }

    /// Removes and returns the peer with this id.
    pub fn remove(&mut self, worker_id: &str) -> (r: Option<PeerInfo>)
        requires
            old(self).wf(),
        ensures
            final(self).wf(),
            r == old(self).lookup(worker_id@),
            r is Some ==> final(self).entries() == old(self).entries().remove(peer_index(old(self).entries(), worker_id@)),
            r is None ==> final(self).entries() == old(self).entries(),
            final(self).lookup(worker_id@) is None,
    {
        match self.find(worker_id) {
            Some(i) => {
                let ghost s0 = self.peers@;
                let p = self.peers.remove(i);
                proof {
                    let t = self.peers@;
                    assert forall|a: int, b: int| 0 <= a < t.len() && 0 <= b < t.len() && a != b
                        implies t[a].id() != t[b].id() by {
                        let a1 = if a < i { a } else { a + 1 };
                        let b1 = if b < i { b } else { b + 1 };
                        assert(t[a] == s0[a1] && t[b] == s0[b1]);
                    }
                    lemma_peer_index(s0, worker_id@);
                    lemma_peer_index(t, worker_id@);
                    if peer_index(t, worker_id@) >= 0 {
                        let k = peer_index(t, worker_id@);
                        let k1 = if k < i { k } else { k + 1 };
                        assert(t[k] == s0[k1]);
                    }
                }
                Some(p)
            },
            None => None,
        }
    }

    /// The record for a worker id.
    pub fn get(&self, worker_id: &str) -> (r: Option<&PeerInfo>)
        requires
            self.wf(),
        ensures
            match r {
                Some(p) => self.lookup(worker_id@) == Some(*p),
                None => self.lookup(worker_id@) is None,
            },
    {
        match self.find(worker_id) {
            Some(i) => Some(&self.peers[i]),
            None => None,
        }
    }

    /// Number of known peers.
    pub fn peer_count(&self) -> (r: usize)
        ensures
            r == self.entries().len(),
    {
        self.peers.len()
    }

    /// Every known peer, in insertion order.
    pub fn all_peers(&self) -> (r: Vec<&PeerInfo>)
        ensures
            r@.map_values(|p: &PeerInfo| *p) == self.entries(),
    {
        let mut out: Vec<&PeerInfo> = Vec::new();
        let mut i: usize = 0;
        while i < self.peers.len()
            invariant
                i <= self.peers@.len(),
                out@.map_values(|p: &PeerInfo| *p) == self.peers@.subrange(0, i as int),
            decreases self.peers@.len() - i,
        {
            let ghost before = out@;
            out.push(&self.peers[i]);
            assert(out@.map_values(|p: &PeerInfo| *p) =~= before.map_values(|p: &PeerInfo| *p).push(self.peers@[i as int]));
            assert(out@.map_values(|p: &PeerInfo| *p) =~= self.peers@.subrange(0, i as int + 1));
            i += 1;
        }
        assert(self.peers@.subrange(0, i as int) =~= self.peers@);
        out
    }

    /// Peers advertising tasks of kind `t`, in insertion order.
    pub fn peers_with_capability(&self, t: TaskType) -> (r: Vec<&PeerInfo>)
        ensures
            r@.map_values(|p: &PeerInfo| *p) == self.entries().filter(has_capability(t)),
    {
        let mut out: Vec<&PeerInfo> = Vec::new();
        let mut i: usize = 0;
        while i < self.peers.len()
            invariant
                i <= self.peers@.len(),
                out@.map_values(|p: &PeerInfo| *p) == self.peers@.subrange(0, i as int).filter(has_capability(t)),
            decreases self.peers@.len() - i,
        {
            proof { lemma_filter_step(self.peers@, i as int, has_capability(t)); }
            let ghost before = out@;
            assert(has_capability(t)(self.peers@[i as int]) == self.peers@[i as int].capabilities.supports_spec(t));
            if self.peers[i].capabilities.supports_task(t) {
                out.push(&self.peers[i]);
                assert(out@.map_values(|p: &PeerInfo| *p) =~= before.map_values(|p: &PeerInfo| *p).push(self.peers@[i as int]));
            }
            assert(out@.map_values(|p: &PeerInfo| *p) =~= self.peers@.subrange(0, i as int + 1).filter(has_capability(t)));
            i += 1;
        }
        assert(self.peers@.subrange(0, i as int) =~= self.peers@);
        out
    }

    /// Peers that belong to group `group_id`, in insertion order.
    pub fn peers_in_group(&self, group_id: &str) -> (r: Vec<&PeerInfo>)
        ensures
            r@.map_values(|p: &PeerInfo| *p) == self.entries().filter(in_group(group_id@)),
    {
        let mut out: Vec<&PeerInfo> = Vec::new();
        let mut i: usize = 0;
        while i < self.peers.len()
            invariant
                i <= self.peers@.len(),
                out@.map_values(|p: &PeerInfo| *p) == self.peers@.subrange(0, i as int).filter(in_group(group_id@)),
            decreases self.peers@.len() - i,
        {
            proof { lemma_filter_step(self.peers@, i as int, in_group(group_id@)); }
            let ghost before = out@;
            let found = group_position(&self.peers[i].groups, group_id);
            proof {
                if let Some(k) = found {
                    assert(self.peers@[i as int].group_ids()[k as int] == group_id@);
                }
            }
            assert(in_group(group_id@)(self.peers@[i as int]) == self.peers@[i as int].group_ids().contains(group_id@));
            if found.is_some() {
                out.push(&self.peers[i]);
                assert(out@.map_values(|p: &PeerInfo| *p) =~= before.map_values(|p: &PeerInfo| *p).push(self.peers@[i as int]));
            }
            assert(out@.map_values(|p: &PeerInfo| *p) =~= self.peers@.subrange(0, i as int + 1).filter(in_group(group_id@)));
            i += 1;
        }
        assert(self.peers@.subrange(0, i as int) =~= self.peers@);
        out
    }

    /// Records a status report from a peer; unknown ids are ignored.
    pub fn update_status(&mut self, worker_id: &str, status: WorkerStatus, now: u64)
        requires
            old(self).wf(),
        ensures
            final(self).wf(),
            final(self).entries() == match old(self).lookup(worker_id@) {
                Some(p) => old(self).entries().update(peer_index(old(self).entries(), worker_id@), with_status(p, status, now)),
                None => old(self).entries(),
            },
    {
        if let Some(i) = self.find(worker_id) {
            let mut p = self.peers.remove(i);
            p.status = status;
            p.last_seen = now;
            self.reinsert(i, p);
        }
    }

    /// Records a latency measurement; unknown ids are ignored.
    pub fn update_latency(&mut self, worker_id: &str, latency_ms: u32, now: u64)
        requires
            old(self).wf(),
        ensures
            final(self).wf(),
            final(self).entries() == match old(self).lookup(worker_id@) {
                Some(p) => old(self).entries().update(peer_index(old(self).entries(), worker_id@), with_latency(p, latency_ms, now)),
                None => old(self).entries(),
            },
    {
        if let Some(i) = self.find(worker_id) {
            let mut p = self.peers.remove(i);
            p.latency_ms = Some(latency_ms);
            p.last_seen = now;
            self.reinsert(i, p);
        }
    }

    /// Records that a peer was heard from; unknown ids are ignored.
    pub fn touch(&mut self, worker_id: &str, now: u64)
        requires
            old(self).wf(),
        ensures
            final(self).wf(),
            final(self).entries() == match old(self).lookup(worker_id@) {
                Some(p) => old(self).entries().update(peer_index(old(self).entries(), worker_id@), touched(p, now)),
                None => old(self).entries(),
            },
    {
        if let Some(i) = self.find(worker_id) {
            let mut p = self.peers.remove(i);
            p.last_seen = now;
            self.reinsert(i, p);
        }
    }

    /// Puts back at `i` a record taken out there, with the same id.
    fn reinsert(&mut self, i: usize, p: PeerInfo)
        requires
            i <= old(self).entries().len(),
            peer_ids_unique(old(self).entries().insert(i as int, p)),
        ensures
            final(self).wf(),
            final(self).entries() == old(self).entries().insert(i as int, p),
    {
        self.peers.insert(i, p);
    }

    /// Adds a peer to a group once; unknown ids are ignored.
    pub fn add_to_group(&mut self, worker_id: &str, group_id: &str)
        requires
            old(self).wf(),
        ensures
            final(self).wf(),
            final(self).entries().len() == old(self).entries().len(),
            forall|k: int| 0 <= k < old(self).entries().len() && k != peer_index(old(self).entries(), worker_id@)
                ==> final(self).entries()[k] == old(self).entries()[k],
            match old(self).lookup(worker_id@) {
                Some(p) => {
                    let q = final(self).entries()[peer_index(old(self).entries(), worker_id@)];
                    &&& q == (PeerInfo { groups: q.groups, ..p })
                    &&& q.group_ids() == if p.group_ids().contains(group_id@) {
                        p.group_ids()
                    } else {
                        p.group_ids().push(group_id@)
                    }
                },
                None => final(self).entries() == old(self).entries(),
            },
    {
        if let Some(i) = self.find(worker_id) {
            let ghost s0 = self.peers@;
            proof { lemma_peer_index(s0, worker_id@); }
            let mut p = self.peers.remove(i);
            let found = group_position(&p.groups, group_id);
            proof {
                if let Some(k) = found {
                    assert(p.group_ids()[k as int] == group_id@);
                }
            }
            if found.is_none() {
                let ghost g0 = p.groups@;
                p.groups.push(group_id.to_owned());
                assert(p.groups@.map_values(|g: String| g@) =~= g0.map_values(|g: String| g@).push(group_id@));
            }
            assert(self.peers@.insert(i as int, p) =~= s0.update(i as int, p));
            self.reinsert(i, p);
        }
    }

    /// Takes a peer out of a group; unknown ids are ignored.
    pub fn remove_from_group(&mut self, worker_id: &str, group_id: &str)
        requires
            old(self).wf(),
        ensures
            final(self).wf(),
            final(self).entries().len() == old(self).entries().len(),
            forall|k: int| 0 <= k < old(self).entries().len() && k != peer_index(old(self).entries(), worker_id@)
                ==> final(self).entries()[k] == old(self).entries()[k],
            match old(self).lookup(worker_id@) {
                Some(p) => {
                    let q = final(self).entries()[peer_index(old(self).entries(), worker_id@)];
                    &&& q == (PeerInfo { groups: q.groups, ..p })
                    &&& q.group_ids() == p.group_ids().filter(other_group(group_id@))
                },
                None => final(self).entries() == old(self).entries(),
            },
    {
        if let Some(i) = self.find(worker_id) {
            let ghost s0 = self.peers@;
            proof { lemma_peer_index(s0, worker_id@); }
            let mut p = self.peers.remove(i);
            let kept = without_group(&p.groups, group_id);
            p.groups = kept;
            assert(self.peers@.insert(i as int, p) =~= s0.update(i as int, p));
            self.reinsert(i, p);
        }
    }

    /// Removes every peer stale at `now` and returns their ids, in
    /// insertion order. With a zero timeout every peer goes.
    pub fn prune_stale(&mut self, now: u64, timeout_ms: u64) -> (r: Vec<String>)
        requires
            old(self).wf(),
        ensures
            final(self).wf(),
            final(self).entries() == old(self).entries().filter(live_at(now, timeout_ms)),
            r@.map_values(|s: String| s@) == old(self).entries().filter(stale_at(now, timeout_ms))
                .map_values(|p: PeerInfo| p.id()),
            timeout_ms == 0 ==> final(self).entries().len() == 0,
    {
        let ghost s0 = self.peers@;
        let ghost mut j: int = 0;
        let mut gone: Vec<String> = Vec::new();
        let mut i: usize = 0;
        while i < self.peers.len()
            invariant
                0 <= i <= j <= s0.len(),
                i <= self.peers@.len(),
                self.peers@.len() - i == s0.len() - j,
                peer_ids_unique(self.peers@),
                self.peers@.subrange(0, i as int) == s0.subrange(0, j).filter(live_at(now, timeout_ms)),
                self.peers@.subrange(i as int, self.peers@.len() as int) == s0.subrange(j, s0.len() as int),
                gone@.map_values(|s: String| s@) == s0.subrange(0, j).filter(stale_at(now, timeout_ms)).map_values(|p: PeerInfo| p.id()),
            decreases self.peers@.len() - i,
        {
            let ghost cur = self.peers@;
            assert(cur[i as int] == s0[j]) by {
                assert(cur.subrange(i as int, cur.len() as int)[0] == s0.subrange(j, s0.len() as int)[0]);
            }
            proof {
                lemma_filter_step(s0, j, live_at(now, timeout_ms));
                lemma_filter_step(s0, j, stale_at(now, timeout_ms));
            }
            let last_seen = self.peers[i].last_seen;
            let stale = if now >= last_seen { now - last_seen >= timeout_ms } else { timeout_ms == 0 };
            assert(live_at(now, timeout_ms)(s0[j]) == !stale && stale_at(now, timeout_ms)(s0[j]) == stale);
            if stale {
                let p = self.peers.remove(i);
                let ghost before = gone@;
                gone.push(p.worker_id);
                proof {
                    assert(gone@ == before.push(p.worker_id));
                    let t = self.peers@;
                    assert forall|a: int, b: int| 0 <= a < t.len() && 0 <= b < t.len() && a != b
                        implies t[a].id() != t[b].id() by {
                        let a1 = if a < i { a } else { a + 1 };
                        let b1 = if b < i { b } else { b + 1 };
                        assert(t[a] == cur[a1] && t[b] == cur[b1]);
                    }
                    assert(t.subrange(0, i as int) =~= cur.subrange(0, i as int));
                    assert(t.subrange(i as int, t.len() as int) =~= cur.subrange(i as int + 1, cur.len() as int));
                    assert(s0.subrange(j + 1, s0.len() as int) =~= s0.subrange(j, s0.len() as int).drop_first());
                    assert(cur.subrange(i as int + 1, cur.len() as int) =~= cur.subrange(i as int, cur.len() as int).drop_first());
                    assert(gone@.map_values(|s: String| s@) =~= before.map_values(|s: String| s@).push(s0[j].id()));
                    assert(s0.subrange(0, j).filter(stale_at(now, timeout_ms)).push(s0[j]).map_values(|p: PeerInfo| p.id())
                        =~= s0.subrange(0, j).filter(stale_at(now, timeout_ms)).map_values(|p: PeerInfo| p.id()).push(s0[j].id()));
                    j = j + 1;
                }
            } else {
                proof {
                    assert(cur.subrange(0, i as int + 1) =~= cur.subrange(0, i as int).push(cur[i as int]));
                    assert(s0.subrange(j + 1, s0.len() as int) =~= s0.subrange(j, s0.len() as int).drop_first());
                    assert(cur.subrange(i as int + 1, cur.len() as int) =~= cur.subrange(i as int, cur.len() as int).drop_first());
                    j = j + 1;
                }
                i += 1;
            }
        }
        proof {
            assert(self.peers@.subrange(0, i as int) =~= self.peers@);
            assert(s0.subrange(0, j) =~= s0);
            if timeout_ms == 0 {
                lemma_prune_zero_removes_all(s0, now);
            }
        }
        gone
    }

    /// The ready peer advertising tasks of kind `t` with the lowest known
    /// latency; unknown latency ranks last, and ties go to the earlier peer.
    pub fn best_peer_for_task(&self, t: TaskType) -> (r: Option<&PeerInfo>)
        ensures
            match r {
                Some(p) => {
                    &&& self.entries().contains(*p)
                    &&& p.candidate_for(t)
                    &&& forall|k: int| 0 <= k < self.entries().len() && (#[trigger] self.entries()[k]).candidate_for(t)
                        ==> p.rank() <= self.entries()[k].rank()
                },
                None => forall|k: int| 0 <= k < self.entries().len() ==> !(#[trigger] self.entries()[k]).candidate_for(t),
            },
    {
        let mut best: Option<usize> = None;
        let mut i: usize = 0;
        while i < self.peers.len()
            invariant
                i <= self.peers@.len(),
                match best {
                    Some(b) => b < i && self.peers@[b as int].candidate_for(t)
                        && forall|k: int| 0 <= k < i && (#[trigger] self.peers@[k]).candidate_for(t)
                            ==> self.peers@[b as int].rank() <= self.peers@[k].rank(),
                    None => forall|k: int| 0 <= k < i ==> !(#[trigger] self.peers@[k]).candidate_for(t),
                },
            decreases self.peers@.len() - i,
        {
            let p = &self.peers[i];
            if p.status == WorkerStatus::Ready && p.capabilities.supports_task(t) {
                let rank = match p.latency_ms { Some(l) => l, None => u32::MAX };
                match best {
                    Some(b) => {
                        let brank = match self.peers[b].latency_ms { Some(l) => l, None => u32::MAX };
                        if rank < brank {
                            best = Some(i);
                        }
                    },
                    None => {
                        best = Some(i);
                    },
                }
            }
            i += 1;
        }
        match best {
            Some(b) => {
                assert(self.peers@.contains(self.peers@[b as int]));
                Some(&self.peers[b])
            },
            None => None,
        }
    }
}

impl Default for PeerRegistry {
    fn default() -> (r: Self)
        ensures
            r.wf(),
            r.entries() == Seq::<PeerInfo>::empty(),
    {
        PeerRegistry::new()
    }
}

/// Position of `group_id` in a list of group ids.
fn group_position(groups: &Vec<String>, group_id: &str) -> (r: Option<usize>)
    ensures
        match r {
            Some(i) => i < groups@.len() && groups@[i as int]@ == group_id@,
            None => !groups@.map_values(|g: String| g@).contains(group_id@),
        },
{
    let mut i: usize = 0;
    while i < groups.len()
        invariant
            i <= groups@.len(),
            forall|j: int| 0 <= j < i ==> groups@[j]@ != group_id@,
        decreases groups@.len() - i,
    {
        if str_eq(groups[i].as_str(), group_id) {
            return Some(i);
        }
        i += 1;
    }
    proof {
        if groups@.map_values(|g: String| g@).contains(group_id@) {
            let v = groups@.map_values(|g: String| g@);
            let j = choose|j: int| 0 <= j < v.len() && #[trigger] v[j] == group_id@;
            assert(groups@[j]@ == group_id@);
        }
    }
    None
}

/// The group ids other than `group_id`, in order.
fn without_group(groups: &Vec<String>, group_id: &str) -> (r: Vec<String>)
    ensures
        r@.map_values(|g: String| g@) == groups@.map_values(|g: String| g@).filter(other_group(group_id@)),
{
    let ghost v = groups@.map_values(|g: String| g@);
    let mut out: Vec<String> = Vec::new();
    let mut i: usize = 0;
    while i < groups.len()
        invariant
            i <= groups@.len(),
            v == groups@.map_values(|g: String| g@),
            out@.map_values(|g: String| g@) == v.subrange(0, i as int).filter(other_group(group_id@)),
        decreases groups@.len() - i,
    {
        proof { lemma_filter_step(v, i as int, other_group(group_id@)); }
        assert(v[i as int] == groups@[i as int]@);
        assert(other_group(group_id@)(v[i as int]) == (v[i as int] != group_id@));
        if !str_eq(groups[i].as_str(), group_id) {
            let g = groups[i].clone();
            let ghost before = out@;
            out.push(g);
            assert(out@.map_values(|g: String| g@) =~= before.map_values(|g: String| g@).push(v[i as int]));
        }
        i += 1;
    }
    assert(v.subrange(0, i as int) =~= v);
    out
}

} // verus!
