use actix_raft_scaffold::config::{ConfigSchema, Configuration, JoinStrategy};
use actix_raft_scaffold::network::messages::{ConnectNode, HandleNodeStatusChange, NetworkError};
use actix_raft_scaffold::network::node::NodeStatus;
use actix_raft_scaffold::network::state::{Extent, Status};
use actix_raft_scaffold::network::summary::{MembershipConfig, Metrics, RaftState};
use actix_raft_scaffold::network::{
    connect_node_result, CurrentLeader, GetCurrentLeader, GetNode, LeaderLookup, Network,
    RegisterOutcome,
};
use actix_raft_scaffold::raft::system::RaftSystemBuilder;
use actix_raft_scaffold::ring::Ring;
use actix_raft_scaffold::utils;
use actix_raft_scaffold::NodeInfo;
use actix_raft_scaffold::ports::http::entities::raft_protocol_command_response::Response;
use actix_raft_scaffold::ports::http::entities::{NodeId, ResponseResult};
use actix_raft_scaffold::ports::http::routes::connect_response;

const NODE_A_ADDRESS: &str = "127.0.0.1:8000";
const NODE_B_ADDRESS: &str = "127.0.0.1:8001";
const NODE_C_ADDRESS: &str = "127.0.0.1:8002";

fn info(name: &str, cluster: &str, app: &str, public: &str) -> NodeInfo {
    NodeInfo {
        name: name.to_owned(),
        cluster_address: cluster.to_owned(),
        app_address: app.to_owned(),
        public_address: public.to_owned(),
    }
}

fn make_node_a() -> NodeInfo {
    info("node_a", NODE_A_ADDRESS, "127.0.0.1:9000", "127.0.0.1:8080")
}

fn make_node_b() -> NodeInfo {
    info("node_b", NODE_B_ADDRESS, "127.0.0.1:9001", "127.0.0.1:8081")
}

fn make_node_c() -> NodeInfo {
    info("node_c", NODE_C_ADDRESS, "127.0.0.1:9002", "127.0.0.1:8082")
}

fn make_all_nodes() -> Vec<NodeInfo> {
    vec![make_node_a(), make_node_b(), make_node_c()]
}

fn make_test_network(node_info: &NodeInfo) -> Network {
    let node_id = node_info.node_id();
    let ring = Ring::new(10);
    Network::new(node_id, node_info, ring, "127.0.0.1:8888".to_owned())
}

fn make_test_configuration(host: &str, nodes: Vec<NodeInfo>) -> Configuration {
    let schema = ConfigSchema {
        discovery_host_address: "127.0.0.1:8080".to_owned(),
        join_strategy: JoinStrategy::Static,
        ring_replicas: 10,
        nodes,
        max_discovery_timeout: 5,
        max_raft_init_timeout: 5,
        election_timeout_min: 200,
        election_timeout_max: 300,
        heartbeat_interval: 50,
        max_payload_entries: 300,
        metrics_rate: 10,
        snapshot_dir: "data/snapshots/".to_owned(),
        snapshot_max_chunk_size: 3_145_728,
    };
    Configuration::for_host(host, schema)
}

fn same(a: &NodeInfo, b: &NodeInfo) -> bool {
    a.equals(b)
}

/// The registration answer names the node that registered.
fn assert_acknowledges(id: u64) {
    match connect_response(id).response {
        Some(Response::Result(ResponseResult::ConnectionAcknowledged { node_id })) => {
            assert_eq!(node_id, Some(NodeId { id }));
        }
        other => panic!("unexpected {:?}", other),
    }
}

fn metrics(id: u64, state: RaftState, leader: Option<u64>) -> Metrics {
    Metrics {
        id,
        state,
        current_term: 1,
        last_log_index: 0,
        last_applied: 0,
        current_leader: leader,
        membership_config: MembershipConfig {
            is_in_joint_consensus: false,
            members: vec![id],
            non_voters: vec![],
            removing: vec![],
        },
    }
}

#[test]
fn test_network_create() {
    let node_info = info("test_node", "127.0.0.1:8080", "127.0.0.1:9090", "127.0.0.1:90");

    let actual = make_test_network(&node_info);
    assert_eq!(actual.id, node_info.node_id());
    assert!(same(&actual.info, &node_info));
    assert_eq!(actual.state.unwrap(), Status::Joining);
    assert_eq!(actual.state.extent(), Extent::SingleNode);
    assert_eq!(actual.discovery, "127.0.0.1:8888");
    assert_eq!(actual.nodes.is_empty(), false);
    assert_eq!(actual.nodes.len(), 1);
    assert!(same(actual.nodes.get(&actual.id).unwrap().info.as_ref().unwrap(), &actual.info));
    assert!(actual.state.connected_nodes().is_empty());
    assert!(actual.state.isolated_nodes().is_empty());
    assert!(actual.metrics.is_none());
}

#[test]
fn test_network_configure() {
    let node_info = make_node_a();
    let config = make_test_configuration("node_a", make_all_nodes());

    let mut actual = make_test_network(&node_info);
    actual.configure_with(&config);

    assert_eq!(actual.id, node_info.node_id());
    assert!(same(&actual.info, &node_info));
    assert_eq!(actual.state.unwrap(), Status::Joining);
    assert_eq!(actual.state.extent(), Extent::SingleNode);
    assert_eq!(actual.discovery, "127.0.0.1:8888");
    assert_eq!(actual.nodes.is_empty(), false);
    assert_eq!(actual.nodes.len(), 3);

    for expected in make_all_nodes() {
        let entry = actual.nodes.get(&expected.node_id()).unwrap();
        assert_eq!(entry.id, expected.node_id());
        assert!(same(entry.info.as_ref().unwrap(), &expected));
        assert!(!entry.started);
    }

    assert!(actual.state.connected_nodes().is_empty());
    assert!(actual.state.isolated_nodes().is_empty());
    assert!(actual.metrics.is_none());
}

#[test]
fn test_node_ids_of_addresses() {
    assert_eq!(utils::generate_node_id(NODE_A_ADDRESS), 3473232121428402785);
    assert_eq!(utils::generate_node_id(NODE_B_ADDRESS), 7220731670040962359);
    assert_eq!(utils::generate_node_id(NODE_C_ADDRESS), 3835155250108445025);
    assert_eq!(make_node_a().node_id(), 3473232121428402785);
}

#[test]
fn test_node_id_depends_on_cluster_address_only() {
    let a = make_node_a();
    let mut renamed = make_node_a();
    renamed.name = "other".to_owned();
    renamed.app_address = "10.0.0.1:1".to_owned();
    assert_eq!(a.node_id(), renamed.node_id());
    assert_ne!(a.node_id(), make_node_b().node_id());
}

#[test]
fn test_register_node_starts_then_is_unchanged() {
    let mut network = make_test_network(&make_node_a());
    let b = make_node_b();
    let b_id = b.node_id();
    match network.register_node(b_id, b.clone()) {
        RegisterOutcome::StartNode { node_id, info, .. } => {
            assert_eq!(node_id, b_id);
            assert!(same(&info, &b));
        }
        other => panic!("unexpected outcome {:?}", other),
    }
    assert!(network.nodes.get(&b_id).unwrap().started);
    assert!(matches!(network.register_node(b_id, b.clone()), RegisterOutcome::Unchanged));
    assert_eq!(network.get_node(b_id), Some(b_id));
}

#[test]
fn test_register_local_node_without_raft_is_unavailable() {
    let a = make_node_a();
    let mut network = make_test_network(&a);
    let outcome = network.register_node(a.node_id(), a.clone());
    assert!(matches!(outcome, RegisterOutcome::ProximityUnavailable));
    assert!(!network.nodes.get(&a.node_id()).unwrap().started);
    assert_eq!(network.get_node(a.node_id()), None);
}

#[test]
fn test_isolate_and_restore_node() {
    let mut network = make_test_network(&make_node_a());
    let b_id = make_node_b().node_id();
    network.isolate_node(b_id);
    assert!(network.state.is_isolated_node(b_id));
    assert!(!network.state.is_connected_node(b_id));
    network.restore_node(b_id);
    assert!(!network.state.is_isolated_node(b_id));
    assert!(network.state.is_connected_node(b_id));
    network.restore_node(b_id);
    assert!(network.state.is_connected_node(b_id));
}

#[test]
fn test_node_status_changes_of_known_nodes_only() {
    let mut network = make_test_network(&make_node_a());
    let b = make_node_b();
    let b_id = b.node_id();
    network.on_node_status_change(HandleNodeStatusChange { id: b_id, status: NodeStatus::Disconnected });
    assert!(!network.state.is_isolated_node(b_id));

    network.register_node(b_id, b);
    network.on_node_status_change(HandleNodeStatusChange { id: b_id, status: NodeStatus::Disconnected });
    assert!(network.state.is_isolated_node(b_id));
    network.on_node_status_change(HandleNodeStatusChange { id: b_id, status: NodeStatus::Failure(2) });
    assert!(network.state.is_isolated_node(b_id));
    network.on_node_status_change(HandleNodeStatusChange { id: b_id, status: NodeStatus::Connected });
    assert!(network.state.is_connected_node(b_id));
    assert!(!network.state.is_isolated_node(b_id));
}

#[test]
fn test_leader_delegate_errors() {
    let a = make_node_a();
    let b = make_node_b();
    let mut network = make_test_network(&a);
    assert!(matches!(network.leader_delegate(), Err(NetworkError::NoElectedLeader)));

    network.on_raft_metrics(metrics(a.node_id(), RaftState::Leader, Some(a.node_id())));
    match network.leader_delegate() {
        Err(NetworkError::Unknown(m)) => assert_eq!(m, "Local leader node is not started"),
        other => panic!("unexpected {:?}", other),
    }

    network.configure_with(&make_test_configuration("node_a", make_all_nodes()));
    network.on_raft_metrics(metrics(a.node_id(), RaftState::Follower, Some(b.node_id())));
    match network.leader_delegate() {
        Err(NetworkError::NotLeader { leader_id, leader_address }) => {
            assert_eq!(leader_id, Some(b.node_id()));
            assert_eq!(leader_address, Some(NODE_B_ADDRESS.to_owned()));
        }
        other => panic!("unexpected {:?}", other),
    }
    assert!(matches!(network.client_request_target(), Err(NetworkError::NotLeader { .. })));
    network.register_node(b.node_id(), b.clone());
    assert_eq!(network.client_request_target().unwrap(), b.node_id());
}

#[test]
fn test_leader_delegate_to_started_local_leader() {
    let a = make_node_a();
    let mut network = make_test_network(&a);
    network.register_raft();
    network.on_raft_metrics(metrics(a.node_id(), RaftState::Leader, Some(a.node_id())));
    assert!(network.is_leader());
    assert_eq!(network.leader_delegate().unwrap(), a.node_id());
}

#[test]
fn test_raft_metrics_move_status() {
    let a = make_node_a();
    let mut network = make_test_network(&a);
    network.on_raft_metrics(metrics(a.node_id(), RaftState::NonVoter, None));
    assert_eq!(network.state.unwrap(), Status::Joining);
    network.on_raft_metrics(metrics(a.node_id(), RaftState::Follower, None));
    assert_eq!(network.state.unwrap(), Status::Joining);
    network.on_raft_metrics(metrics(a.node_id(), RaftState::Follower, Some(7)));
    assert_eq!(network.state.unwrap(), Status::Up);
    network.on_raft_metrics(metrics(a.node_id(), RaftState::Leader, Some(a.node_id())));
    assert_eq!(network.state.unwrap(), Status::Up);
    network.on_raft_metrics(metrics(a.node_id(), RaftState::NonVoter, None));
    assert_eq!(network.state.unwrap(), Status::Leaving);
    let statuses: Vec<Status> = network.state.timeline().iter().map(|e| e.status).collect();
    assert_eq!(statuses, vec![Status::Joining, Status::Up, Status::Leaving]);
}

/// The end state of a two-node cluster, node a and node b, once both nodes are connected and
/// Raft reports a follower with no leader yet: the network stays joining.
#[test]
fn test_network_cmd_connect_node_no_leader() {
    let a = make_node_a();
    let b = make_node_b();
    let mut network = make_test_network(&a);
    network.configure_with(&make_test_configuration("node_a", vec![a.clone(), b.clone()]));
    network.on_started();
    network.register_raft();
    network.on_raft_metrics(metrics(a.node_id(), RaftState::NonVoter, None));
    assert_eq!(network.state.unwrap(), Status::Joining);
    assert_eq!(network.state.extent(), Extent::SingleNode);

    let first = network.handle_connect_remote_node(ConnectNode { id: b.node_id(), info: b.clone() });
    assert!(first.is_none());
    for id in [a.node_id(), b.node_id()] {
        network.on_node_status_change(HandleNodeStatusChange { id, status: NodeStatus::WeaklyConnected });
        network.on_node_status_change(HandleNodeStatusChange { id, status: NodeStatus::Connected });
    }
    network.on_raft_metrics(metrics(a.node_id(), RaftState::Follower, None));

    let actual = network.summarize();
    assert_eq!(actual.id, a.node_id());
    assert!(same(&actual.info, &a));
    assert!(actual.state.isolated_nodes().is_empty());
    assert_eq!(actual.state.unwrap(), Status::Joining);
    assert_eq!(actual.state.extent(), Extent::Cluster);
    assert_eq!(actual.state.connected_nodes().len(), 2);
    let m = actual.metrics.as_ref().unwrap();
    assert_eq!(m.state, RaftState::Follower);
    assert_eq!(m.current_leader, None);
    assert_acknowledges(b.node_id());
}

/// Connecting a known node with changed info re-registers it with the new info.
#[test]
fn test_network_cmd_connect_node_change_info() {
    let a = make_node_a();
    let b = make_node_b();
    let mut network = make_test_network(&a);
    network.configure_with(&make_test_configuration("node_a", vec![a.clone(), b.clone()]));
    network.on_started();
    let mut changed_b = b.clone();
    changed_b.name = "new-node-b".to_owned();
    let outcome = network.handle_connect_remote_node(ConnectNode { id: b.node_id(), info: changed_b.clone() });
    match outcome {
        Some(RegisterOutcome::StartNode { node_id, info, .. }) => {
            assert_eq!(node_id, b.node_id());
            assert!(same(&info, &changed_b));
        }
        other => panic!("unexpected outcome {:?}", other),
    }
    let (b_id, b_info) = network.get_node_info(GetNode::for_id(b.node_id()));
    assert_eq!(b_id, b.node_id());
    assert!(same(&b_info.unwrap(), &changed_b));
    assert_eq!(network.state.unwrap(), Status::Joining);
    assert_acknowledges(b.node_id());
}

/// A cluster whose Raft node leads: the network is up.
#[test]
fn test_network_cmd_connect_node_leader() {
    let a = make_node_a();
    let b = make_node_b();
    let mut network = make_test_network(&a);
    network.configure_with(&make_test_configuration("node_a", vec![a.clone(), b.clone()]));
    network.on_started();
    network.register_raft();
    for id in [a.node_id(), b.node_id()] {
        network.on_node_status_change(HandleNodeStatusChange { id, status: NodeStatus::WeaklyConnected });
        network.on_node_status_change(HandleNodeStatusChange { id, status: NodeStatus::Connected });
    }
    network.on_raft_metrics(metrics(a.node_id(), RaftState::Leader, Some(a.node_id())));
    let actual = network.summarize();
    assert!(actual.state.isolated_nodes().is_empty());
    assert_eq!(actual.state.extent(), Extent::Cluster);
    assert_eq!(actual.state.connected_nodes().len(), 2);
    assert_eq!(actual.state.unwrap(), Status::Up);
    assert_eq!(actual.metrics.as_ref().unwrap().current_leader, Some(a.node_id()));
    assert!(network.is_leader());
    assert_acknowledges(b.node_id());
}

#[test]
fn test_current_leader_retries() {
    let a = make_node_a();
    let mut network = make_test_network(&a);
    let msg = GetCurrentLeader::new();
    assert_eq!(msg.attempts_remaining(), 3);
    match network.current_leader(msg) {
        LeaderLookup::Retry { after_secs, retry } => {
            assert_eq!(after_secs, 1);
            assert_eq!(retry.attempts_remaining(), 2);
        }
        other => panic!("unexpected {:?}", other),
    }
    let mut m = GetCurrentLeader::new();
    for _ in 0..3 {
        m = m.retry().unwrap();
    }
    assert!(m.retry().is_err());
    assert!(matches!(network.current_leader(m), LeaderLookup::Exhausted));

    network.on_raft_metrics(metrics(a.node_id(), RaftState::Leader, Some(42)));
    match network.current_leader(GetCurrentLeader::new()) {
        LeaderLookup::Found(leader) => {
            assert_eq!(leader, CurrentLeader(Some(42)));
            assert_eq!(leader.describe(), "CurrentLeader(#42)");
        }
        other => panic!("unexpected {:?}", other),
    }
    assert_eq!(CurrentLeader(None).describe(), "CurrentLeader(No consensus)");
}

#[test]
fn test_connect_remote_node_once() {
    let mut network = make_test_network(&make_node_a());
    let b = make_node_b();
    let first = network.handle_connect_remote_node(ConnectNode { id: b.node_id(), info: b.clone() });
    assert!(first.is_some());
    let second = network.handle_connect_remote_node(ConnectNode { id: b.node_id(), info: b.clone() });
    assert!(second.is_none());
    assert!(!network.state.is_isolated_node(b.node_id()));
    assert!(network.nodes.get(&b.node_id()).unwrap().started);
}

#[test]
fn test_connect_node_result_acknowledges_leader_errors() {
    assert!(connect_node_result(Ok(())).is_ok());
    assert!(connect_node_result(Err(NetworkError::NoElectedLeader)).is_ok());
    assert!(connect_node_result(Err(NetworkError::NotLeader { leader_id: None, leader_address: None })).is_ok());
    assert!(matches!(
        connect_node_result(Err(NetworkError::Unknown("x".to_owned()))),
        Err(NetworkError::Unknown(_))
    ));
}

#[test]
fn test_disconnect_node_removes_entry() {
    let mut network = make_test_network(&make_node_a());
    network.configure_with(&make_test_configuration("node_a", make_all_nodes()));
    let b_id = make_node_b().node_id();
    network.disconnect_node(b_id);
    assert!(network.nodes.get(&b_id).is_none());
    assert_eq!(network.nodes.len(), 2);
}

#[test]
fn test_get_node_info_by_id_and_address() {
    let mut network = make_test_network(&make_node_a());
    network.configure_with(&make_test_configuration("node_a", make_all_nodes()));
    let b = make_node_b();
    let (id, found) = network.get_node_info(GetNode::for_id(b.node_id()));
    assert_eq!(id, b.node_id());
    assert!(same(&found.unwrap(), &b));
    let (id, found) = network.get_node_info(GetNode::for_cluster_address(NODE_B_ADDRESS.to_owned()));
    assert_eq!(id, 0);
    assert!(found.is_none());
}

#[test]
fn test_on_started_starts_known_remote_nodes() {
    let a = make_node_a();
    let mut network = make_test_network(&a);
    network.configure_with(&make_test_configuration("node_a", make_all_nodes()));
    let outcomes = network.on_started();
    assert_eq!(outcomes.len(), 3);
    let mut ids = vec![a.node_id(), make_node_b().node_id(), make_node_c().node_id()];
    ids.sort();
    for (outcome, id) in outcomes.iter().zip(ids.iter()) {
        if *id == a.node_id() {
            assert!(matches!(outcome, RegisterOutcome::ProximityUnavailable));
        } else {
            match outcome {
                RegisterOutcome::StartNode { node_id, .. } => assert_eq!(node_id, id),
                other => panic!("unexpected outcome {:?}", other),
            }
        }
    }
    assert_eq!(network.on_started().iter().filter(|o| matches!(o, RegisterOutcome::Unchanged)).count(), 2);
    assert!(!network.nodes.get(&a.node_id()).unwrap().started);
    assert!(network.nodes.get(&make_node_b().node_id()).unwrap().started);
    assert!(network.nodes.get(&make_node_c().node_id()).unwrap().started);
    let ids = network.node_ids();
    assert_eq!(ids.len(), 3);
    let infos = network.connected_nodes_info();
    assert_eq!(infos.len(), 3);
}

#[test]
fn test_network_describe() {
    let a = make_node_a();
    let network = make_test_network(&a);
    assert_eq!(network.describe(), format!("Network(id:{} state:Joining:SingleNode)", a.node_id()));
    let summary = network.summarize();
    assert_eq!(summary.id, a.node_id());
    assert!(summary.metrics.is_none());
}

#[test]
fn test_raft_routing_drops_isolated() {
    let a = make_node_a();
    let b = make_node_b();
    let mut network = make_test_network(&a);
    network.register_node(b.node_id(), b.clone());
    assert_eq!(network.route_vote(b.node_id(), a.node_id()), Some(b.node_id()));
    assert_eq!(network.route_append_entries(b.node_id(), a.node_id()), Some(b.node_id()));
    assert!(network.ignore_in_isolation(b.node_id(), a.node_id()).is_ok());
    network.isolate_node(b.node_id());
    assert_eq!(network.route_vote(b.node_id(), a.node_id()), None);
    assert_eq!(network.route_append_entries(b.node_id(), a.node_id()), None);
    assert!(network.ignore_in_isolation(b.node_id(), a.node_id()).is_err());
    assert!(network.ignore_in_isolation(12345, a.node_id()).is_err());
}

#[test]
fn test_network_for_configuration() {
    let config = make_test_configuration("node_b", make_all_nodes());
    let network = Network::for_configuration(&config);
    let b = make_node_b();
    assert_eq!(network.id, b.node_id());
    assert!(same(&network.info, &b));
    assert_eq!(network.discovery, "127.0.0.1:8080");
    assert_eq!(network.nodes.len(), 3);
    assert!(network.nodes.values().all(|n| !n.started));
    assert_eq!(network.state.unwrap(), Status::Joining);
}

#[test]
fn test_configure_last_seed_of_an_address_wins() {
    let a = make_node_a();
    let mut network = make_test_network(&a);
    let twin = info("node_a_twin", NODE_A_ADDRESS, "127.0.0.1:9100", "127.0.0.1:8180");
    let schema_nodes = vec![make_node_a(), twin.clone()];
    network.configure_with(&make_test_configuration("node_a", schema_nodes));
    assert_eq!(network.nodes.len(), 1);
    let entry = network.nodes.get(&a.node_id()).unwrap();
    assert!(same(entry.info.as_ref().unwrap(), &twin));
    assert!(!entry.started);
}

/// A configured network that has started, with no Raft node yet: joining, alone.
#[test]
fn test_network_start() {
    let node_info = make_node_a();
    let config = make_test_configuration("node_a", make_all_nodes());
    let mut network = make_test_network(&node_info);
    network.configure_with(&config);
    network.on_started();
    let actual = network.summarize();
    assert_eq!(actual.id, utils::generate_node_id("127.0.0.1:8000"));
    assert!(same(&actual.info, &node_info));
    assert!(actual.state.isolated_nodes().is_empty());
    assert_eq!(actual.state.unwrap(), Status::Joining);
    assert_eq!(actual.state.extent(), Extent::SingleNode);
    assert!(actual.state.connected_nodes().is_empty());
    assert!(actual.metrics.is_none());
}

/// The network a Raft system builds from its configuration: the host's, joining, alone.
#[test]
fn test_network_builder() {
    let config = make_test_configuration("node_a", make_all_nodes());
    let local_id = utils::generate_node_id(NODE_A_ADDRESS);
    let mut builder = RaftSystemBuilder::new(local_id);
    builder.with_configuration(config.duplicate());
    builder.with_storage_factory();
    let plan = builder.build_plan().unwrap();
    assert_eq!(plan.host_id, local_id);
    assert!(plan.create_network);
    let network = Network::for_configuration(&config);
    let actual = network.summarize();
    assert_eq!(actual.id, utils::generate_node_id("127.0.0.1:8000"));
    assert!(same(&actual.info, &make_node_a()));
    assert!(actual.state.isolated_nodes().is_empty());
    assert_eq!(actual.state.unwrap(), Status::Joining);
    assert_eq!(actual.state.extent(), Extent::SingleNode);
    assert!(actual.state.connected_nodes().is_empty());
    assert!(actual.metrics.is_none());
}

/// A network configured with node a alone knows node a only.
#[test]
fn test_network_bind() {
    let node_a = make_node_a();
    let config = make_test_configuration("node_a", vec![node_a.clone()]);
    let network = Network::for_configuration(&config);
    let actual = network.node_ids();
    assert_eq!(actual.len(), 1);
    assert_eq!(*actual.get(0).unwrap(), node_a.node_id());
    assert_eq!(network.connected_nodes_info().len(), 1);
}

#[test]
fn test_node_id_bytes_are_hex_digits() {
    for address in [NODE_A_ADDRESS, NODE_B_ADDRESS, NODE_C_ADDRESS, "", "[::1]:8888"] {
        let id = utils::generate_node_id(address);
        assert_ne!(id, 0);
        for b in id.to_be_bytes().iter() {
            assert!(b.is_ascii_digit() || (b'a' <= *b && *b <= b'f'), "byte {} of {}", b, address);
        }
        assert_eq!(id, utils::generate_node_id(address));
    }
}
