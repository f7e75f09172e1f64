//! Peer mesh bookkeeping: its settings, and the table of live connections
//! that accepts at most one connection, hence one reader and one writer,
//! per peer.

use vstd::prelude::*;
use crate::framing::FrameDecode;
use crate::peer::{peer_index, PeerRegistry};
use crate::text::str_eq;

verus! {

/// Peer mesh settings. Durations are in seconds.
#[derive(Debug, Clone, Copy, PartialEq, Eq, Structural)]
pub struct MeshConfig {
    /// Zero lets the system pick.
    pub listen_port: u16,
    pub max_peers: usize,
    pub connection_timeout_secs: u64,
    pub ping_interval_secs: u64,
    pub stale_timeout_secs: u64,
}

impl Default for MeshConfig {
    fn default() -> (r: Self)
        ensures
            r == (MeshConfig { listen_port: 0, max_peers: 32, connection_timeout_secs: 10, ping_interval_secs: 15, stale_timeout_secs: 60 }),
    {
        MeshConfig { listen_port: 0, max_peers: 32, connection_timeout_secs: 10, ping_interval_secs: 15, stale_timeout_secs: 60 }
    }
}

/// Why a connection was not accepted.
#[derive(Debug, Clone, Copy, PartialEq, Eq, Structural)]
pub enum AttachError {
    /// `max_peers` connections are open already.
    AtCapacity,
    /// The peer has a connection already.
    AlreadyConnected,
}

/// The peers with an open connection. Each entry stands for one reader
/// task and one writer task.
pub struct PeerConnections {
    ids: Vec<String>,
    max_peers: usize,
}

impl PeerConnections {
    /// Worker ids of the connected peers, in order of connection.
    pub closed spec fn ids_spec(&self) -> Seq<Seq<char>> {
        self.ids@.map_values(|s: String| s@)
    }

    pub closed spec fn max_spec(&self) -> nat {
        self.max_peers as nat
    }

    /// No peer twice, and never more than the cap.
    pub open spec fn wf(&self) -> bool {
        &&& self.ids_spec().no_duplicates()
        &&& self.ids_spec().len() <= self.max_spec()
    }

    /// No connections, accepting up to `max_peers`.
    pub fn new(max_peers: usize) -> (r: Self)
        ensures
            r.wf(),
            r.ids_spec() == Seq::<Seq<char>>::empty(),
            r.max_spec() == max_peers,
    {
        let r = PeerConnections { ids: Vec::new(), max_peers };
        assert(r.ids_spec() =~= Seq::<Seq<char>>::empty());
        r
    }

    fn position(&self, worker_id: &str) -> (r: Option<usize>)
        ensures
            match r {
                Some(i) => i < self.ids_spec().len() && self.ids_spec()[i as int] == worker_id@,
                None => !self.ids_spec().contains(worker_id@),
            },
    {
        let mut i: usize = 0;
        while i < self.ids.len()
            invariant
                i <= self.ids@.len(),
                forall|j: int| 0 <= j < i ==> self.ids@[j]@ != worker_id@,
            decreases self.ids@.len() - i,
        {
            if str_eq(self.ids[i].as_str(), worker_id) {
                return Some(i);
            }
            i += 1;
        }
        proof {
            if self.ids_spec().contains(worker_id@) {
                let j = choose|j: int| 0 <= j < self.ids_spec().len() && #[trigger] self.ids_spec()[j] == worker_id@;
                assert(self.ids@[j]@ == worker_id@);
            }
        }
        None
    }

    /// Whether the peer has a connection.
    pub fn is_connected(&self, worker_id: &str) -> (r: bool)
        ensures
            r == self.ids_spec().contains(worker_id@),
    {
        match self.position(worker_id) {
            Some(i) => {
                assert(self.ids_spec()[i as int] == worker_id@);
                true
            },
            None => false,
        }
    }

    /// Number of open connections.
    pub fn count(&self) -> (r: usize)
        ensures
            r == self.ids_spec().len(),
    {
        self.ids.len()
    }

    /// Whether an inbound connection may be taken: fewer than `max_peers`
    /// are open.
    pub fn can_accept(&self) -> (r: bool)
        ensures
            r == (self.ids_spec().len() < self.max_spec()),
    {
        self.ids.len() < self.max_peers
    }

    /// Accepts a connection for `worker_id`, after its handshake. Refused
    /// at capacity or when the peer has a connection already; then the
    /// caller tears the new one down and starts no tasks for it.
    pub fn attach(&mut self, worker_id: &str) -> (r: Result<(), AttachError>)
        requires
            old(self).wf(),
        ensures
            final(self).wf(),
            final(self).max_spec() == old(self).max_spec(),
            old(self).ids_spec().len() >= old(self).max_spec() ==> r == Err::<(), AttachError>(AttachError::AtCapacity),
            old(self).ids_spec().len() < old(self).max_spec() && old(self).ids_spec().contains(worker_id@)
                ==> r == Err::<(), AttachError>(AttachError::AlreadyConnected),
            r is Ok <==> (old(self).ids_spec().len() < old(self).max_spec() && !old(self).ids_spec().contains(worker_id@)),
            r is Err ==> final(self).ids_spec() == old(self).ids_spec(),
            r is Ok ==> final(self).ids_spec() == old(self).ids_spec().push(worker_id@),
    {
        if self.ids.len() >= self.max_peers {
            return Err(AttachError::AtCapacity);
        }
        if self.position(worker_id).is_some() {
            return Err(AttachError::AlreadyConnected);
        }
        let ghost before = self.ids@;
        self.ids.push(worker_id.to_owned());
        assert(self.ids_spec() =~= before.map_values(|s: String| s@).push(worker_id@));
        Ok(())
    }

    /// Forgets the connection of `worker_id`, once its reader has ended.
    pub fn detach(&mut self, worker_id: &str) -> (r: bool)
        requires
            old(self).wf(),
        ensures
            final(self).wf(),
            final(self).max_spec() == old(self).max_spec(),
            r == old(self).ids_spec().contains(worker_id@),
            !final(self).ids_spec().contains(worker_id@),
            r ==> final(self).ids_spec().len() + 1 == old(self).ids_spec().len(),
            !r ==> final(self).ids_spec() == old(self).ids_spec(),
            forall|x: Seq<char>| x != worker_id@ ==> (final(self).ids_spec().contains(x) <==> old(self).ids_spec().contains(x)),
    {
        match self.position(worker_id) {
            Some(i) => {
                let ghost before = self.ids_spec();
                self.ids.remove(i);
                proof {
                    let after = self.ids_spec();
                    assert(after =~= before.remove(i as int));
                    assert forall|a: int, b: int| 0 <= a < after.len() && 0 <= b < after.len() && a != b
                        implies after[a] != after[b] by {
                        let a1 = if a < i { a } else { a + 1 };
                        let b1 = if b < i { b } else { b + 1 };
                        assert(after[a] == before[a1] && after[b] == before[b1]);
                    }
                    assert forall|x: Seq<char>| x != worker_id@ implies (after.contains(x) <==> before.contains(x)) by {
                        if before.contains(x) {
                            let k = choose|k: int| 0 <= k < before.len() && before[k] == x;
                            if k < i { assert(after[k] == x); } else { assert(k != i); assert(after[k - 1] == x); }
                        }
                        if after.contains(x) {
                            let k = choose|k: int| 0 <= k < after.len() && after[k] == x;
                            if k < i { assert(before[k] == x); } else { assert(before[k + 1] == x); }
                        }
                    }
                    if after.contains(worker_id@) {
                        let k = choose|k: int| 0 <= k < after.len() && after[k] == worker_id@;
                        let k1 = if k < i { k } else { k + 1 };
                        assert(before[k1] == worker_id@ && before[i as int] == worker_id@);
                    }
                }
                true
            },
            None => false,
        }
    }
}

/// Seconds an outbound connection waits for the peer's `HelloAck`.
pub const HELLO_ACK_TIMEOUT_SECS: u64 = 5;

/// The handshake frames, reduced to what the handshake reads.
#[derive(Debug, Clone)]
pub enum HandshakeFrame {
    Hello { worker_id: String },
    HelloAck { worker_id: String },
    /// Any other message.
    Other,
}

/// Why a handshake failed; the connection is then torn down and no peer
/// is recorded.
#[derive(Debug, Clone, Copy, PartialEq, Eq, Structural)]
pub enum HandshakeError {
    /// The first frame was not the expected handshake frame.
    UnexpectedFrame,
    /// No `HelloAck` came within the wait.
    Timeout,
    /// The connection table refused the peer.
    Refused(AttachError),
}

/// The worker id a handshake frame offers on a connection of this
/// direction: `Hello` inbound, `HelloAck` outbound.
pub open spec fn offered_id(inbound: bool, frame: HandshakeFrame) -> Option<Seq<char>> {
    match frame {
        HandshakeFrame::Hello { worker_id } => if inbound { Some(worker_id@) } else { None },
        HandshakeFrame::HelloAck { worker_id } => if !inbound { Some(worker_id@) } else { None },
        HandshakeFrame::Other => None,
    }
}

/// How a handshake ends, over plain values: the id as text on success.
pub open spec fn handshake_outcome(inbound: bool, frame: Option<HandshakeFrame>, ids: Seq<Seq<char>>, max: nat)
    -> Result<Seq<char>, HandshakeError>
{
    match frame {
        None => Err(HandshakeError::Timeout),
        Some(f) => match offered_id(inbound, f) {
            None => Err(HandshakeError::UnexpectedFrame),
            Some(id) => if ids.len() >= max {
                Err(HandshakeError::Refused(AttachError::AtCapacity))
            } else if ids.contains(id) {
                Err(HandshakeError::Refused(AttachError::AlreadyConnected))
            } else {
                Ok(id)
            },
        },
    }
}

impl PeerConnections {
    /// Completes a handshake: the frame that arrived first on an inbound
    /// connection must be `Hello`, the reply on an outbound one `HelloAck`
    /// (`None`: none came in time). On success the peer's connection is
    /// recorded and its worker id returned; the caller then answers an
    /// inbound `Hello` with `HelloAck` and starts one reader and one writer.
    pub fn complete_handshake(&mut self, inbound: bool, frame: Option<HandshakeFrame>) -> (r: Result<String, HandshakeError>)
        requires
            old(self).wf(),
        ensures
            final(self).wf(),
            final(self).max_spec() == old(self).max_spec(),
            match (r, handshake_outcome(inbound, frame, old(self).ids_spec(), old(self).max_spec())) {
                (Ok(id), Ok(x)) => id@ == x,
                (Err(e), Err(f)) => e == f,
                _ => false,
            },
            match r {
                Ok(id) => {
                    &&& frame is Some
                    &&& match frame.unwrap() {
                        HandshakeFrame::Hello { worker_id } => inbound && worker_id@ == id@,
                        HandshakeFrame::HelloAck { worker_id } => !inbound && worker_id@ == id@,
                        HandshakeFrame::Other => false,
                    }
                    &&& !old(self).ids_spec().contains(id@)
                    &&& final(self).ids_spec() == old(self).ids_spec().push(id@)
                },
                Err(e) => {
                    &&& final(self).ids_spec() == old(self).ids_spec()
                    &&& (frame is None ==> e == HandshakeError::Timeout)
                },
            },
    {
        let id = match frame {
            None => return Err(HandshakeError::Timeout),
            Some(HandshakeFrame::Hello { worker_id }) => {
                if !inbound {
                    return Err(HandshakeError::UnexpectedFrame);
                }
                worker_id
            },
            Some(HandshakeFrame::HelloAck { worker_id }) => {
                if inbound {
                    return Err(HandshakeError::UnexpectedFrame);
                }
                worker_id
            },
            Some(HandshakeFrame::Other) => return Err(HandshakeError::UnexpectedFrame),
        };
        match self.attach(id.as_str()) {
            Ok(()) => Ok(id),
            Err(e) => Err(HandshakeError::Refused(e)),
        }
    }
}

/// What the reader of a connection does with what it read.
#[derive(Debug, Clone, Copy, PartialEq, Eq, Structural)]
pub enum ReadAction {
    /// Read more bytes first.
    NeedMore,
    /// Hand the frame's payload on.
    Deliver,
    /// The connection was closed.
    Closed,
}

/// Ends the connection of `worker_id`: it leaves the connection table and
/// the peer directory; every other connection stays.
pub fn close_connection(conns: &mut PeerConnections, peers: &mut PeerRegistry, worker_id: &str)
    requires
        old(conns).wf(),
        old(peers).wf(),
    ensures
        final(conns).wf(),
        final(peers).wf(),
        !final(conns).ids_spec().contains(worker_id@),
        forall|x: Seq<char>| x != worker_id@ ==> (final(conns).ids_spec().contains(x) <==> old(conns).ids_spec().contains(x)),
        final(peers).lookup(worker_id@) is None,
        old(peers).lookup(worker_id@) is Some ==> final(peers).entries()
            == old(peers).entries().remove(peer_index(old(peers).entries(), worker_id@)),
        old(peers).lookup(worker_id@) is None ==> final(peers).entries() == old(peers).entries(),
{
    conns.detach(worker_id);
    peers.remove(worker_id);
}

/// Acts on one read attempt from `worker_id`'s connection: a frame over the
/// size limit is a protocol error that closes this connection, and only it.
pub fn on_read(conns: &mut PeerConnections, peers: &mut PeerRegistry, worker_id: &str, read: &FrameDecode) -> (r: ReadAction)
    requires
        old(conns).wf(),
        old(peers).wf(),
    ensures
        final(conns).wf(),
        final(peers).wf(),
        match read {
            FrameDecode::Oversize { .. } => {
                &&& r == ReadAction::Closed
                &&& !final(conns).ids_spec().contains(worker_id@)
                &&& forall|x: Seq<char>| x != worker_id@ ==> (final(conns).ids_spec().contains(x) <==> old(conns).ids_spec().contains(x))
                &&& final(peers).lookup(worker_id@) is None
            },
            FrameDecode::Frame { .. } => r == ReadAction::Deliver && final(conns).ids_spec() == old(conns).ids_spec()
                && final(peers).entries() == old(peers).entries(),
            FrameDecode::Incomplete => r == ReadAction::NeedMore && final(conns).ids_spec() == old(conns).ids_spec()
                && final(peers).entries() == old(peers).entries(),
        },
{
    match read {
        FrameDecode::Oversize { .. } => {
            close_connection(conns, peers, worker_id);
            ReadAction::Closed
        },
        FrameDecode::Frame { .. } => ReadAction::Deliver,
        FrameDecode::Incomplete => ReadAction::NeedMore,
    }
}

} // verus!
