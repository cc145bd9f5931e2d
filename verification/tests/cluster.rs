use iggy_core::cluster::{
    ports_to_endpoints, role_for, ClusterNodeConfig, ClusterNodeRole, ClusterNodeStatus,
    ClusterRoster, TransportEndpoints, TransportPorts,
};

fn ports(tcp: Option<u16>, http: Option<u16>) -> TransportPorts {
    TransportPorts {
        tcp,
        quic: None,
        http,
        websocket: None,
        tcp_replica: None,
    }
}

fn node(replica_id: u8, ip: &str, tcp: Option<u16>) -> ClusterNodeConfig {
    ClusterNodeConfig {
        name: format!("node-{replica_id}"),
        ip: ip.to_owned(),
        replica_id,
        ports: ports(tcp, Some(8080)),
    }
}

fn roster(enabled: bool, nodes: Vec<ClusterNodeConfig>) -> ClusterRoster {
    ClusterRoster {
        enabled,
        name: "test-cluster".to_owned(),
        nodes,
        self_ip: "127.0.0.1".to_owned(),
        self_ports: ports(Some(8090), Some(3000)),
    }
}

#[test]
fn roster_marks_only_the_primary_leader() {
    let r = roster(
        true,
        vec![node(0, "10.0.0.1", Some(1)), node(1, "10.0.0.2", Some(2)), node(2, "10.0.0.3", Some(3))],
    );
    let m = r.cluster_metadata(Some(1));
    assert_eq!(m.name, "test-cluster");
    assert_eq!(m.nodes.len(), 3);
    let leaders: Vec<_> = m.nodes.iter().filter(|n| n.role == ClusterNodeRole::Leader).collect();
    assert_eq!(leaders.len(), 1);
    assert_eq!(leaders[0].name, "node-1");
    assert_eq!(m.nodes[2].ip, "10.0.0.3");
    assert_eq!(
        m.nodes[2].endpoints,
        TransportEndpoints { tcp: 3, quic: 0, http: 8080, websocket: 0 }
    );
    assert!(m.nodes.iter().all(|n| n.status == ClusterNodeStatus::Healthy));
}

#[test]
fn roster_without_primary_has_only_followers() {
    let r = roster(true, vec![node(0, "10.0.0.1", Some(1)), node(1, "10.0.0.2", Some(2))]);
    let m = r.cluster_metadata(None);
    assert!(m.nodes.iter().all(|n| n.role == ClusterNodeRole::Follower));
    let m = r.cluster_metadata(Some(7));
    assert!(m.nodes.iter().all(|n| n.role == ClusterNodeRole::Follower));
}

#[test]
fn disabled_or_empty_roster_synthesizes_self_node() {
    for r in [roster(false, vec![node(0, "10.0.0.1", Some(1))]), roster(true, Vec::new())] {
        let m = r.cluster_metadata(Some(0));
        assert_eq!(m.name, "single-node");
        assert_eq!(m.nodes.len(), 1);
        assert_eq!(m.nodes[0].name, "iggy-node");
        assert_eq!(m.nodes[0].ip, "127.0.0.1");
        assert_eq!(m.nodes[0].role, ClusterNodeRole::Leader);
        assert_eq!(
            m.nodes[0].endpoints,
            TransportEndpoints { tcp: 8090, quic: 0, http: 3000, websocket: 0 }
        );
    }
}

#[test]
fn pre_bootstrap_roster_reports_bare_node() {
    let r = ClusterRoster::disabled();
    assert!(!r.enabled);
    let m = r.cluster_metadata(None);
    assert_eq!(m.nodes.len(), 1);
    assert_eq!(m.nodes[0].ip, "");
    assert_eq!(m.nodes[0].endpoints, TransportEndpoints::new(0, 0, 0, 0));
    assert_eq!(m.nodes[0].role, ClusterNodeRole::Leader);
}

#[test]
fn role_and_endpoint_helpers() {
    assert_eq!(role_for(Some(2), 2), ClusterNodeRole::Leader);
    assert_eq!(role_for(Some(2), 1), ClusterNodeRole::Follower);
    assert_eq!(role_for(None, 0), ClusterNodeRole::Follower);
    assert_eq!(
        ports_to_endpoints(&TransportPorts::default()),
        TransportEndpoints::new(0, 0, 0, 0)
    );
}
