//! The peer table and the edges that it asks for.

use crate::error::SyncError;
use vstd::prelude::*;

verus! {

/// A named album and the peers from which it takes what it lacks.
#[derive(Debug, PartialEq, Eq)]
pub struct Peer {
    /// Name of the peer, by which other peers refer to it.
    pub name: String,
    /// Share link of the peer's album.
    pub shared_link: String,
    /// Names of the peers whose assets this peer takes over, in order.
    pub sync_with: Vec<String>,
}

/// One pass of synchronisation: the peer at `destination` takes from the
/// peer at `source` what it lacks.  Both are positions in the peer table.
#[derive(Debug, Clone, Copy, PartialEq, Eq, Structural)]
pub struct Edge {
    pub destination: usize,
    pub source: usize,
}

/// Whether a peer of `peers` is named `name`.
pub open spec fn known(peers: Seq<Peer>, name: Seq<char>) -> bool {
    exists|i: int| 0 <= i < peers.len() && #[trigger] peers[i].name@ == name
}

/// The position of the first peer of `peers` that is named `name`.
pub open spec fn position_of(peers: Seq<Peer>, name: Seq<char>) -> int {
    choose|i: int|
        0 <= i < peers.len() && #[trigger] peers[i].name@ == name && forall|j: int|
            0 <= j < i ==> #[trigger] peers[j].name@ != name
}

/// Whether no two peers of `peers` have the same name.
pub open spec fn distinct_names(peers: Seq<Peer>) -> bool {
    forall|i: int, j: int|
        0 <= i < j < peers.len() ==> #[trigger] peers[i].name@ != #[trigger] peers[j].name@
}

/// The edges that the first `upto` entries of the peer at `peer` ask for.
pub open spec fn edges_of_peer(peers: Seq<Peer>, peer: int, upto: int) -> Seq<Edge> {
    Seq::new(
        upto as nat,
        |k: int|
            Edge {
                destination: peer as usize,
                source: position_of(peers, peers[peer].sync_with@[k]@) as usize,
            },
    )
}

/// The edges that the first `upto` peers ask for: peer by peer in the order
/// of the table, and for each peer in the order of its `sync_with`.
pub open spec fn edges_upto(peers: Seq<Peer>, upto: int) -> Seq<Edge>
    decreases upto,
{
    if upto <= 0 {
        Seq::empty()
    } else {
        edges_upto(peers, upto - 1) + edges_of_peer(
            peers,
            upto - 1,
            peers[upto - 1].sync_with@.len() as int,
        )
    }
}

/// Whether entry `entry` of the peer at `peer` names a peer of the table.
pub open spec fn entry_known(peers: Seq<Peer>, peer: int, entry: int) -> bool {
    known(peers, peers[peer].sync_with@[entry]@)
}

/// Whether every `sync_with` entry of every peer names a peer of the table.
pub open spec fn all_known(peers: Seq<Peer>) -> bool {
    forall|p: int, k: int|
        0 <= p < peers.len() && 0 <= k < peers[p].sync_with@.len() ==> #[trigger] entry_known(
            peers,
            p,
            k,
        )
}

/// Whether entry `entry` of the peer at `peer` is the first entry of the
/// table, peer by peer, that names no peer of the table.
pub open spec fn first_unknown(peers: Seq<Peer>, peer: int, entry: int) -> bool {
    &&& 0 <= peer < peers.len()
    &&& 0 <= entry < peers[peer].sync_with@.len()
    &&& !entry_known(peers, peer, entry)
    &&& forall|k: int| 0 <= k < entry ==> #[trigger] entry_known(peers, peer, k)
    &&& forall|p: int, k: int|
        0 <= p < peer && 0 <= k < peers[p].sync_with@.len() ==> #[trigger] entry_known(
            peers,
            p,
            k,
        )
}

/// The peers of a run by name.  No two peers of a table have the same name.
pub struct PeerTable {
    peers: Vec<Peer>,
}

impl View for PeerTable {
    type V = Seq<Peer>;

    closed spec fn view(&self) -> Seq<Peer> {
        self.peers@
    }
}

impl PeerTable {
    #[verifier::type_invariant]
    spec fn inv(&self) -> bool {
        distinct_names(self.peers@)
    }

    /// A table without peers.
    pub fn new() -> (table: PeerTable)
        ensures
            table@ == Seq::<Peer>::empty(),
    {
        PeerTable { peers: Vec::new() }
    }

    /// The number of peers.
    pub fn len(&self) -> (len: usize)
        ensures
            len == self@.len(),
    {
        self.peers.len()
    }

    /// The peer at `index`, if the table has that many.
    pub fn get(&self, index: usize) -> (peer: Option<&Peer>)
        ensures
            peer == if index < self@.len() {
                Some(&self@[index as int])
            } else {
                None
            },
    {
        if index < self.peers.len() {
            Some(&self.peers[index])
        } else {
            None
        }
    }

    /// The position of the peer named `name`, if the table has one.
    pub fn position(&self, name: &str) -> (position: Option<usize>)
        ensures
            distinct_names(self@),
            match position {
                Some(at) => known(self@, name@) && at == position_of(self@, name@),
                None => !known(self@, name@),
            },
    {
        proof {
            use_type_invariant(self);
        }
        let wanted = name.to_owned();
        let mut i: usize = 0;
        while i < self.peers.len()
            invariant
                i <= self.peers.len(),
                wanted@ == name@,
                distinct_names(self.peers@),
                forall|j: int| 0 <= j < i ==> #[trigger] self.peers@[j].name@ != name@,
            decreases self.peers.len() - i,
        {
            if self.peers[i].name == wanted {
                assert(self.peers@[i as int].name@ == name@);
                return Some(i);
            }
            i += 1;
        }
        None
    }
}

impl PeerTable {
    /// The table with `peer` put in.  A peer of the same name is replaced,
    /// in its place; else `peer` comes last.
    pub fn insert(self, peer: Peer) -> (table: PeerTable)
        ensures
            distinct_names(table@),
            match self.position_spec(peer.name@) {
                Some(at) => table@ == self@.update(at, peer),
                None => table@ == self@.push(peer),
            },
    {
        let at = self.position(peer.name.as_str());
        let PeerTable { mut peers } = self;
        match at {
            Some(at) => {
                peers.set(at, peer);
            },
            None => {
                peers.push(peer);
            },
        }
        PeerTable { peers }
    }

    /// The edges that the table asks for: for each peer in the order of the
    /// table, and for each name of its `sync_with` in order, the edge from
    /// the named peer to this one.  A peer may name itself.
    ///
    /// Fails with `UnknownPeer` exactly when some entry names no peer of
    /// the table; the error holds the first such entry and the peer that
    /// has it.
    pub fn edges(&self) -> (result: Result<Vec<Edge>, SyncError>)
        ensures
            match result {
                Ok(edges) => all_known(self@) && edges@ == edges_upto(self@, self@.len() as int),
                Err(error) => exists|p: int, k: int| #[trigger]
                    first_unknown(self@, p, k) && error == (SyncError::UnknownPeer {
                        peer: self@[p].name,
                        unknown: self@[p].sync_with@[k],
                    }),
            },
    {
        let mut edges: Vec<Edge> = Vec::new();
        let mut p: usize = 0;
        while p < self.peers.len()
            invariant
                p <= self.peers.len(),
                edges@ == edges_upto(self@, p as int),
                forall|q: int, k: int|
                    0 <= q < p && 0 <= k < self@[q].sync_with@.len() ==> #[trigger] entry_known(
                        self@,
                        q,
                        k,
                    ),
            decreases self.peers.len() - p,
        {
            let peer = &self.peers[p];
            let mut k: usize = 0;
            while k < peer.sync_with.len()
                invariant
                    p < self.peers.len(),
                    peer == &self@[p as int],
                    k <= peer.sync_with.len(),
                    edges@ == edges_upto(self@, p as int) + edges_of_peer(self@, p as int, k as int),
                    forall|j: int| 0 <= j < k ==> #[trigger] entry_known(self@, p as int, j),
                    forall|q: int, j: int|
                        0 <= q < p && 0 <= j < self@[q].sync_with@.len() ==> #[trigger] entry_known(
                            self@,
                            q,
                            j,
                        ),
                decreases peer.sync_with.len() - k,
            {
                match self.position(peer.sync_with[k].as_str()) {
                    Some(source) => {
                        edges.push(Edge { destination: p, source });
                        proof {
                            assert(entry_known(self@, p as int, k as int));
                            assert(edges_of_peer(self@, p as int, k + 1) =~= edges_of_peer(
                                self@,
                                p as int,
                                k as int,
                            ).push(Edge { destination: p, source }));
                        }
                    },
                    None => {
                        proof {
                            assert(first_unknown(self@, p as int, k as int));
                        }
                        return Err(
                            SyncError::UnknownPeer {
                                peer: peer.name.clone(),
                                unknown: peer.sync_with[k].clone(),
                            },
                        );
                    },
                }
                k += 1;
            }
            p += 1;
        }
        Ok(edges)
    }

    /// The position of the peer named `name`, if the table has one.
    pub open spec fn position_spec(&self, name: Seq<char>) -> Option<int> {
        if known(self@, name) {
            Some(position_of(self@, name))
        } else {
            None
        }
    }
}

} // verus!
