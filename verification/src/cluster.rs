//! Cluster-metadata assembly: one entry per configured roster node with its
//! client ports, the current VSR primary marked `Leader` and the rest
//! `Follower`; a single synthesized self node when no roster applies.

use vstd::prelude::*;

verus! {

/// Node name reported for the synthesized self node when no roster applies.
pub const SELF_NODE_NAME: &'static str = "iggy-node";

/// Cluster name reported when no roster is configured, matching the legacy
/// single-node label.
pub const SINGLE_NODE_CLUSTER_NAME: &'static str = "single-node";

/// Client ports of a node; `None` is a disabled transport.
#[derive(Debug, Clone, Copy, PartialEq, Eq)]
pub struct TransportPorts {
    pub tcp: Option<u16>,
    pub quic: Option<u16>,
    pub http: Option<u16>,
    pub websocket: Option<u16>,
    pub tcp_replica: Option<u16>,
}

impl Default for TransportPorts {
    fn default() -> (r: Self)
        ensures
            r.tcp is None && r.quic is None && r.http is None && r.websocket is None
                && r.tcp_replica is None,
    {
        TransportPorts { tcp: None, quic: None, http: None, websocket: None, tcp_replica: None }
    }
}

/// One configured roster node.
#[derive(Debug, PartialEq, Eq)]
pub struct ClusterNodeConfig {
    pub name: String,
    pub ip: String,
    pub replica_id: u8,
    pub ports: TransportPorts,
}

/// Client endpoints reported for a node; `0` is a disabled transport.
#[derive(Debug, Clone, Copy, PartialEq, Eq)]
pub struct TransportEndpoints {
    pub tcp: u16,
    pub quic: u16,
    pub http: u16,
    pub websocket: u16,
}

impl TransportEndpoints {
    pub fn new(tcp: u16, quic: u16, http: u16, websocket: u16) -> (r: Self)
        ensures
            r == (TransportEndpoints { tcp, quic, http, websocket }),
    {
        TransportEndpoints { tcp, quic, http, websocket }
    }
}

/// Role of a node in the metadata consensus group.
#[derive(Debug, Clone, Copy, PartialEq, Eq)]
pub enum ClusterNodeRole {
    Leader,
    Follower,
}

/// Health reported for a node.
#[derive(Debug, Clone, Copy, PartialEq, Eq)]
pub enum ClusterNodeStatus {
    Healthy,
}

/// One node of the reported cluster view.
#[derive(Debug, PartialEq, Eq)]
pub struct ClusterNode {
    pub name: String,
    pub ip: String,
    pub endpoints: TransportEndpoints,
    pub role: ClusterNodeRole,
    pub status: ClusterNodeStatus,
}

/// The reported cluster view.
#[derive(Debug, PartialEq, Eq)]
pub struct ClusterMetadata {
    pub name: String,
    pub nodes: Vec<ClusterNode>,
}

/// Config-derived cluster topology reported by cluster-metadata reads.
/// `self_*` describe this node and back the cluster-disabled self-synthesis
/// only.
pub struct ClusterRoster {
    pub enabled: bool,
    pub name: String,
    pub nodes: Vec<ClusterNodeConfig>,
    /// This node's own address, reported for the synthesized self node.
    pub self_ip: String,
    /// This node's own client ports for the same self node.
    pub self_ports: TransportPorts,
}

pub open spec fn port_or_zero(p: Option<u16>) -> u16 {
    match p {
        Some(v) => v,
        None => 0,
    }
}

/// `endpoint` reports the configured `port`: the port itself, or `0` when
/// the transport is disabled.
pub open spec fn endpoint_is_port(endpoint: u16, port: Option<u16>) -> bool {
    &&& port matches Some(p) ==> endpoint == p
    &&& port is None ==> endpoint == 0
}

/// The endpoints reported for configured ports: each port, or `0` for a
/// disabled transport.
pub open spec fn spec_endpoints(ports: TransportPorts) -> TransportEndpoints {
    TransportEndpoints {
        tcp: port_or_zero(ports.tcp),
        quic: port_or_zero(ports.quic),
        http: port_or_zero(ports.http),
        websocket: port_or_zero(ports.websocket),
    }
}

/// The node whose replica id is the primary index leads; every other node,
/// and every node when the primary is unknown, follows.
pub open spec fn spec_role_for(primary_index: Option<u8>, replica_id: u8) -> ClusterNodeRole {
    match primary_index {
        Some(primary) => if primary == replica_id {
            ClusterNodeRole::Leader
        } else {
            ClusterNodeRole::Follower
        },
        None => ClusterNodeRole::Follower,
    }
}

/// The reported entry of a configured roster node.
pub open spec fn spec_roster_node(config: ClusterNodeConfig, primary_index: Option<u8>) -> ClusterNode {
    ClusterNode {
        name: config.name,
        ip: config.ip,
        endpoints: spec_endpoints(config.ports),
        role: spec_role_for(primary_index, config.replica_id),
        status: ClusterNodeStatus::Healthy,
    }
}

pub fn role_for(primary_index: Option<u8>, replica_id: u8) -> (r: ClusterNodeRole)
    ensures
        r == spec_role_for(primary_index, replica_id),
{
    match primary_index {
        Some(primary) if primary == replica_id => ClusterNodeRole::Leader,
        _ => ClusterNodeRole::Follower,
    }
}

pub fn ports_to_endpoints(ports: &TransportPorts) -> (r: TransportEndpoints)
    ensures
        r == spec_endpoints(*ports),
        endpoint_is_port(r.tcp, ports.tcp),
        endpoint_is_port(r.quic, ports.quic),
        endpoint_is_port(r.http, ports.http),
        endpoint_is_port(r.websocket, ports.websocket),
{
    TransportEndpoints::new(
        match ports.tcp {
            Some(p) => p,
            None => 0,
        },
        match ports.quic {
            Some(p) => p,
            None => 0,
        },
        match ports.http {
            Some(p) => p,
            None => 0,
        },
        match ports.websocket {
            Some(p) => p,
            None => 0,
        },
    )
}

impl ClusterRoster {
    /// Whether the roster itself is reported (enabled and non-empty), rather
    /// than the synthesized self node.
    pub open spec fn reports_roster(self) -> bool {
        self.enabled && self.nodes@.len() > 0
    }

    /// `m` is the synthesized single self node: the `single-node` cluster
    /// holding one healthy leader named `iggy-node` with this node's own
    /// address and ports.
    pub open spec fn is_self_metadata(self, m: ClusterMetadata) -> bool {
        &&& m.name@ == SINGLE_NODE_CLUSTER_NAME@
        &&& m.nodes@.len() == 1
        &&& m.nodes@[0].name@ == SELF_NODE_NAME@
        &&& m.nodes@[0].ip == self.self_ip
        &&& m.nodes@[0].endpoints == spec_endpoints(self.self_ports)
        &&& m.nodes@[0].role == ClusterNodeRole::Leader
        &&& m.nodes@[0].status == ClusterNodeStatus::Healthy
    }

    /// `m` reports the roster: its name, and one entry per configured node in
    /// order.
    pub open spec fn is_roster_metadata(self, m: ClusterMetadata, primary_index: Option<u8>) -> bool {
        &&& m.name == self.name
        &&& m.nodes@.len() == self.nodes@.len()
        &&& forall|i: int|
            0 <= i < self.nodes@.len() ==> #[trigger] m.nodes@[i] == spec_roster_node(
                self.nodes@[i],
                primary_index,
            )
    }

    /// A cluster-disabled roster with no self address: the pre-bootstrap
    /// default before the real roster is installed.
    pub fn disabled() -> (r: Self)
        ensures
            !r.enabled,
            r.name@.len() == 0,
            r.nodes@.len() == 0,
            r.self_ip@.len() == 0,
            r.self_ports == (TransportPorts {
                tcp: None,
                quic: None,
                http: None,
                websocket: None,
                tcp_replica: None,
            }),
    {
        ClusterRoster {
            enabled: false,
            name: String::new(),
            nodes: Vec::new(),
            self_ip: String::new(),
            self_ports: TransportPorts::default(),
        }
    }

    /// The cluster view. With an enabled, non-empty roster, one node per
    /// entry, the node at `primary_index` the leader and the rest followers;
    /// `None` (no on-shard consensus) leaves every node a follower. Otherwise
    /// the single self node as the sole leader.
    pub fn cluster_metadata(&self, primary_index: Option<u8>) -> (m: ClusterMetadata)
        ensures
            self.reports_roster() ==> self.is_roster_metadata(m, primary_index),
            !self.reports_roster() ==> self.is_self_metadata(m),
    {
        if self.enabled && self.nodes.len() > 0 {
            let mut nodes: Vec<ClusterNode> = Vec::new();
            let mut i: usize = 0;
            while i < self.nodes.len()
                invariant
                    i <= self.nodes@.len(),
                    nodes@.len() == i,
                    forall|j: int|
                        0 <= j < i ==> #[trigger] nodes@[j] == spec_roster_node(self.nodes@[j], primary_index),
                decreases self.nodes@.len() - i,
            {
                let node = &self.nodes[i];
                nodes.push(
                    ClusterNode {
                        name: node.name.clone(),
                        ip: node.ip.clone(),
                        endpoints: ports_to_endpoints(&node.ports),
                        role: role_for(primary_index, node.replica_id),
                        status: ClusterNodeStatus::Healthy,
                    },
                );
                i += 1;
            }
            ClusterMetadata { name: self.name.clone(), nodes }
        } else {
            self.self_metadata()
        }
    }

    /// The synthesized single self node.
    pub fn self_metadata(&self) -> (m: ClusterMetadata)
        ensures
            self.is_self_metadata(m),
    {
        let mut nodes: Vec<ClusterNode> = Vec::new();
        nodes.push(
            ClusterNode {
                name: SELF_NODE_NAME.to_owned(),
                ip: self.self_ip.clone(),
                endpoints: ports_to_endpoints(&self.self_ports),
                role: ClusterNodeRole::Leader,
                status: ClusterNodeStatus::Healthy,
            },
        );
        ClusterMetadata { name: SINGLE_NODE_CLUSTER_NAME.to_owned(), nodes }
    }
}

// ---------------------------------------------------------------------------
// Laws
// ---------------------------------------------------------------------------

/// With replica ids unique in the roster, a reported roster has at most one
/// leader, it has one exactly when some node carries the primary index, and
/// none when the primary is unknown.
pub proof fn law_single_leader(roster: ClusterRoster, primary_index: Option<u8>, m: ClusterMetadata)
    requires
        roster.is_roster_metadata(m, primary_index),
        forall|i: int, j: int|
            0 <= i < j < roster.nodes@.len() ==> #[trigger] roster.nodes@[i].replica_id
                != #[trigger] roster.nodes@[j].replica_id,
    ensures
        forall|i: int, j: int|
            0 <= i < m.nodes@.len() && 0 <= j < m.nodes@.len() && #[trigger] m.nodes@[i].role
                == ClusterNodeRole::Leader && #[trigger] m.nodes@[j].role == ClusterNodeRole::Leader
                ==> i == j,
        (exists|i: int| 0 <= i < m.nodes@.len() && #[trigger] m.nodes@[i].role == ClusterNodeRole::Leader)
            <==> (primary_index matches Some(p) && exists|i: int|
            0 <= i < roster.nodes@.len() && #[trigger] roster.nodes@[i].replica_id == p),
        primary_index is None ==> forall|i: int|
            0 <= i < m.nodes@.len() ==> #[trigger] m.nodes@[i].role == ClusterNodeRole::Follower,
{
    assert forall|i: int, j: int|
        0 <= i < m.nodes@.len() && 0 <= j < m.nodes@.len() && #[trigger] m.nodes@[i].role
            == ClusterNodeRole::Leader && #[trigger] m.nodes@[j].role == ClusterNodeRole::Leader implies i
        == j by {
        assert(m.nodes@[i] == spec_roster_node(roster.nodes@[i], primary_index));
        assert(m.nodes@[j] == spec_roster_node(roster.nodes@[j], primary_index));
        if i < j {
            assert(roster.nodes@[i].replica_id != roster.nodes@[j].replica_id);
        } else if j < i {
            assert(roster.nodes@[j].replica_id != roster.nodes@[i].replica_id);
        }
    }
    if exists|i: int| 0 <= i < m.nodes@.len() && #[trigger] m.nodes@[i].role == ClusterNodeRole::Leader {
        let i = choose|i: int| 0 <= i < m.nodes@.len() && #[trigger] m.nodes@[i].role == ClusterNodeRole::Leader;
        assert(m.nodes@[i] == spec_roster_node(roster.nodes@[i], primary_index));
        assert(roster.nodes@[i].replica_id == primary_index->0);
    }
    if let Some(p) = primary_index {
        if exists|i: int| 0 <= i < roster.nodes@.len() && #[trigger] roster.nodes@[i].replica_id == p {
            let i = choose|i: int| 0 <= i < roster.nodes@.len() && #[trigger] roster.nodes@[i].replica_id == p;
            assert(m.nodes@[i] == spec_roster_node(roster.nodes@[i], primary_index));
            assert(m.nodes@[i].role == ClusterNodeRole::Leader);
        }
    }
    assert forall|i: int| 0 <= i < m.nodes@.len() && primary_index is None implies #[trigger] m.nodes@[i].role
        == ClusterNodeRole::Follower by {
        assert(m.nodes@[i] == spec_roster_node(roster.nodes@[i], primary_index));
    }
}

/// The pre-bootstrap roster reports a bare single node: the self node with
/// every endpoint disabled, whatever the primary.
pub proof fn law_disabled_reports_bare_self_node(roster: ClusterRoster, m: ClusterMetadata)
    requires
        !roster.enabled,
        roster.self_ports == (TransportPorts {
            tcp: None,
            quic: None,
            http: None,
            websocket: None,
            tcp_replica: None,
        }),
        roster.is_self_metadata(m),
    ensures
        m.nodes@.len() == 1,
        m.nodes@[0].role == ClusterNodeRole::Leader,
        m.nodes@[0].endpoints == (TransportEndpoints { tcp: 0, quic: 0, http: 0, websocket: 0 }),
{
}

/// Every reported node carries, transport by transport, the ports it was
/// configured with (`0` for a disabled transport): a roster node its own
/// ports, the synthesized self node this node's ports.
pub proof fn law_endpoints_are_configured_ports(roster: ClusterRoster, primary_index: Option<u8>, m: ClusterMetadata)
    ensures
        roster.is_roster_metadata(m, primary_index) ==> forall|i: int|
            0 <= i < m.nodes@.len() ==> {
                let e = (#[trigger] m.nodes@[i]).endpoints;
                let p = roster.nodes@[i].ports;
                &&& endpoint_is_port(e.tcp, p.tcp)
                &&& endpoint_is_port(e.quic, p.quic)
                &&& endpoint_is_port(e.http, p.http)
                &&& endpoint_is_port(e.websocket, p.websocket)
            },
        roster.is_self_metadata(m) ==> {
            let e = m.nodes@[0].endpoints;
            let p = roster.self_ports;
            &&& endpoint_is_port(e.tcp, p.tcp)
            &&& endpoint_is_port(e.quic, p.quic)
            &&& endpoint_is_port(e.http, p.http)
            &&& endpoint_is_port(e.websocket, p.websocket)
        },
{
    if roster.is_roster_metadata(m, primary_index) {
        assert forall|i: int| 0 <= i < m.nodes@.len() implies {
            let e = (#[trigger] m.nodes@[i]).endpoints;
            let p = roster.nodes@[i].ports;
            &&& endpoint_is_port(e.tcp, p.tcp)
            &&& endpoint_is_port(e.quic, p.quic)
            &&& endpoint_is_port(e.http, p.http)
            &&& endpoint_is_port(e.websocket, p.websocket)
        } by {
            assert(m.nodes@[i] == spec_roster_node(roster.nodes@[i], primary_index));
        }
    }
}

/// A reported roster node is the configured node itself: its name and
/// address, healthy, and the leader exactly when its replica id is the
/// primary index.
pub proof fn law_roster_nodes_are_the_configured_nodes(roster: ClusterRoster, primary_index: Option<u8>, m: ClusterMetadata)
    requires
        roster.is_roster_metadata(m, primary_index),
    ensures
        m.name == roster.name,
        m.nodes@.len() == roster.nodes@.len(),
        forall|i: int|
            0 <= i < m.nodes@.len() ==> {
                let n = #[trigger] m.nodes@[i];
                let c = roster.nodes@[i];
                &&& n.name == c.name
                &&& n.ip == c.ip
                &&& n.status == ClusterNodeStatus::Healthy
                &&& (n.role == ClusterNodeRole::Leader) == (primary_index == Some(c.replica_id))
                &&& (n.role == ClusterNodeRole::Follower) == (primary_index != Some(c.replica_id))
            },
{
    assert forall|i: int| 0 <= i < m.nodes@.len() implies {
        let n = #[trigger] m.nodes@[i];
        let c = roster.nodes@[i];
        &&& n.name == c.name
        &&& n.ip == c.ip
        &&& n.status == ClusterNodeStatus::Healthy
        &&& (n.role == ClusterNodeRole::Leader) == (primary_index == Some(c.replica_id))
        &&& (n.role == ClusterNodeRole::Follower) == (primary_index != Some(c.replica_id))
    } by {
        assert(m.nodes@[i] == spec_roster_node(roster.nodes@[i], primary_index));
    }
}

} // verus!
