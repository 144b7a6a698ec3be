//! Peers panel: the snapshot of connected peers fetched on each refresh
//! cycle, and the figures derived from it.

use vstd::prelude::*;

use crate::arith::sum_of;

verus! {

/// The node interface does not expose per-peer latency yet; this fixed
/// placeholder fills the latency column.
pub const PLACEHOLDER_LATENCY_MS: u64 = 123;

/// Whether the peer connected to us or we to it.
#[derive(Clone, Copy, PartialEq, Eq, Structural, Debug)]
pub enum PeerDirection {
    In,
    Out,
}

/// One row of the peers table.
#[derive(Clone, Debug)]
pub struct PeersItem {
    /// Identifier the peer presents.
    pub peer_id: String,
    /// Whether the peer connected to us or we to it.
    pub direction: PeerDirection,
    /// Best block height the peer reported, if any.
    pub block_height: Option<u64>,
    /// Round-trip latency, in milliseconds.
    pub latency: u64,
    /// A warning to show for this peer, if any.
    pub warning: Option<String>,
}

/// The abstract value of a peers-table row.
pub struct PeersItemView {
    pub peer_id: Seq<char>,
    pub direction: PeerDirection,
    pub block_height: Option<u64>,
    pub latency: u64,
    pub warning: Option<Seq<char>>,
}

impl View for PeersItem {
    type V = PeersItemView;

    open spec fn view(&self) -> PeersItemView {
        PeersItemView {
            peer_id: self.peer_id@,
            direction: self.direction,
            block_height: self.block_height,
            latency: self.latency,
            warning: match &self.warning {
                Some(w) => Some(w@),
                None => None,
            },
        }
    }
}

/// What the fetch path learns about one peer from the node.
#[derive(Clone, Debug)]
pub struct PeerInfo {
    /// Identifier the peer presents.
    pub node_id: String,
    /// Whether we dialed the peer.
    pub is_outbound: bool,
    /// Best block height the peer reported, if any.
    pub best_known_header_number: Option<u64>,
}

/// The abstract value of a raw peer record.
pub struct PeerInfoView {
    pub node_id: Seq<char>,
    pub is_outbound: bool,
    pub best_known_header_number: Option<u64>,
}

impl View for PeerInfo {
    type V = PeerInfoView;

    open spec fn view(&self) -> PeerInfoView {
        PeerInfoView {
            node_id: self.node_id@,
            is_outbound: self.is_outbound,
            best_known_header_number: self.best_known_header_number,
        }
    }
}

/// How many of the raw peer records are outbound.
pub open spec fn count_outbound(s: Seq<PeerInfoView>) -> int
    decreases s.len(),
{
    if s.len() == 0 {
        0
    } else {
        count_outbound(s.drop_last()) + if s.last().is_outbound {
            1int
        } else {
            0int
        }
    }
}

/// The peers-table row a raw peer record turns into.
pub open spec fn peer_row_of(p: PeerInfoView) -> PeersItemView {
    PeersItemView {
        peer_id: p.node_id,
        direction: if p.is_outbound {
            PeerDirection::Out
        } else {
            PeerDirection::In
        },
        block_height: p.best_known_header_number,
        latency: PLACEHOLDER_LATENCY_MS,
        warning: None,
    }
}

/// Immutable snapshot of the peers panel, produced once per refresh cycle
/// and superseded wholesale by the next one.
#[derive(Clone, Debug)]
pub struct PeersDashboardData {
    /// How many peers dialed us.
    pub connections_in: usize,
    /// How many peers we dialed.
    pub connections_out: usize,
    /// One row per connected peer, in the order the node listed them.
    pub peers: Vec<PeersItem>,
}

impl PeersDashboardData {
    /// Assembles the panel snapshot from the peer list the node returned:
    /// the two connection counts, and one table row per peer.
    pub fn from_raw(raw: Vec<PeerInfo>) -> (r: Self)
        ensures
            r.connections_out == count_outbound(raw@.map_values(|p: PeerInfo| p@)),
            r.connections_in + r.connections_out == raw@.len(),
            r.peers@.len() == raw@.len(),
            forall|k: int|
                0 <= k < raw@.len() ==> #[trigger] r.peers@[k]@ == peer_row_of(raw@[k]@),
    {
        let ghost rawv = raw@.map_values(|p: PeerInfo| p@);
        let mut peers: Vec<PeersItem> = Vec::new();
        let mut conn_in: usize = 0;
        let mut conn_out: usize = 0;
        let mut i: usize = 0;
        while i < raw.len()
            invariant
                i <= raw@.len(),
                rawv == raw@.map_values(|p: PeerInfo| p@),
                conn_out == count_outbound(rawv.take(i as int)),
                conn_in + conn_out == i,
                peers@.len() == i,
                forall|k: int| 0 <= k < i ==> #[trigger] peers@[k]@ == peer_row_of(raw@[k]@),
            decreases raw@.len() - i,
        {
            let p = &raw[i];
            peers.push(PeersItem {
                peer_id: p.node_id.clone(),
                direction: if p.is_outbound {
                    PeerDirection::Out
                } else {
                    PeerDirection::In
                },
                block_height: p.best_known_header_number,
                latency: PLACEHOLDER_LATENCY_MS,
                warning: None,
            });
            if p.is_outbound {
                conn_out = conn_out + 1;
            } else {
                conn_in = conn_in + 1;
            }
            i += 1;
            proof {
                assert(rawv.take(i as int).drop_last() =~= rawv.take(i as int - 1));
            }
        }
        proof {
            assert(rawv.take(rawv.len() as int) =~= rawv);
        }
        PeersDashboardData { connections_in: conn_in, connections_out: conn_out, peers }
    }

    /// Whether any peer dialed us: with an inbound connection the node is
    /// reachable from the public network.
    pub fn publicly_reachable(&self) -> (r: bool)
        ensures
            r == (exists|k: int|
                0 <= k < self.peers@.len() && #[trigger] self.peers@[k]@.direction
                    == PeerDirection::In),
    {
        let mut i: usize = 0;
        while i < self.peers.len()
            invariant
                i <= self.peers@.len(),
                forall|k: int|
                    0 <= k < i ==> #[trigger] self.peers@[k]@.direction != PeerDirection::In,
            decreases self.peers@.len() - i,
        {
            if matches!(self.peers[i].direction, PeerDirection::In) {
                proof {
                    assert(self.peers@[i as int]@.direction == PeerDirection::In);
                }
                return true;
            }
            i += 1;
        }
        false
    }

    /// The mean latency over all peers, zero when there are none: never a
    /// division by zero.
    pub fn average_latency(&self) -> (r: u64)
        ensures
            self.peers@.len() == 0 ==> r == 0,
            self.peers@.len() > 0 ==> r as int == sum_of(
                self.peers@.map_values(|p: PeersItem| p.latency),
            ) / self.peers@.len() as int,
    {
        if self.peers.len() == 0 {
            return 0;
        }
        let ghost lats = self.peers@.map_values(|p: PeersItem| p.latency);
        let mut acc: u128 = 0;
        let mut i: usize = 0;
        while i < self.peers.len()
            invariant
                i <= self.peers@.len(),
                lats == self.peers@.map_values(|p: PeersItem| p.latency),
                acc == sum_of(lats.take(i as int)),
                acc <= i as int * u64::MAX,
            decreases self.peers@.len() - i,
        {
            acc = acc + self.peers[i].latency as u128;
            i += 1;
            proof {
                assert(lats.take(i as int).drop_last() =~= lats.take(i as int - 1));
            }
        }
        proof {
            assert(lats.take(lats.len() as int) =~= lats);
        }
        let n = self.peers.len() as u128;
        let avg = acc / n;
        proof {
            let a = acc as int;
            let m = self.peers@.len() as int;
            assert(a / m <= u64::MAX as int) by (nonlinear_arith)
                requires
                    a <= m * (u64::MAX as int),
                    m >= 1,
            ;
        }
        avg as u64
    }
}

} // verus!
