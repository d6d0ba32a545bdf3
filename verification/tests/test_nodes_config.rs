use actix_raft_scaffold::config::{
    find_by_name, seed_nodes_by_name, ConfigSchema, Configuration, ConfigurationError, JoinStrategy,
};
use actix_raft_scaffold::fib::{FibActor, Fibonacci};
use actix_raft_scaffold::network::messages::{Acknowledged, ChangeClusterConfig, HandleNodeStatusChange, NetworkError};
use actix_raft_scaffold::network::node::{
    acknowledge_change, change_result, connect_node_change, immediate_change_result, ClusterChangeRequest, ConnectPlan,
    LocalNode, Node, NodeError, NodeStatus, Proximity, RemoteNode, UpdateProximity,
};
use actix_raft_scaffold::network::proximity::{RaftRpc, RequestFailure};
use actix_raft_scaffold::ports::http::entities::raft_protocol_command_response::Response;
use actix_raft_scaffold::ports::http::entities::{
    CommandRejectedNotLeader, Failure, NodeId, RaftProtocolCommand, RaftProtocolResponse, ResponseResult,
};
use actix_raft_scaffold::raft::builder::RaftBuilder;
use actix_raft_scaffold::raft::system::{RaftSystemBuilder, RaftSystemError};
use actix_raft_scaffold::NodeInfo;

fn info(name: &str, cluster: &str) -> NodeInfo {
    NodeInfo {
        name: name.to_owned(),
        cluster_address: cluster.to_owned(),
        app_address: "127.0.0.1:9000".to_owned(),
        public_address: "127.0.0.1:8080".to_owned(),
    }
}

fn schema(nodes: Vec<NodeInfo>) -> ConfigSchema {
    ConfigSchema {
        discovery_host_address: "127.0.0.1:8080".to_owned(),
        join_strategy: JoinStrategy::Static,
        ring_replicas: 10,
        nodes,
        max_discovery_timeout: 7,
        max_raft_init_timeout: 5,
        election_timeout_min: 200,
        election_timeout_max: 300,
        heartbeat_interval: 50,
        max_payload_entries: 300,
        metrics_rate: 10,
        snapshot_dir: "data/snapshots/".to_owned(),
        snapshot_max_chunk_size: 3_145_728,
    }
}

fn remote() -> RemoteNode {
    RemoteNode::new(7, info("node_b", "127.0.0.1:8001"))
}

fn failure() -> RequestFailure {
    RequestFailure {
        is_timeout: false,
        is_serialization: false,
        is_client_error: false,
        is_http: false,
        is_server_error: false,
        is_redirect: false,
        message: "boom".to_owned(),
        details: "details".to_owned(),
    }
}

#[test]
fn test_configuration_from_schema() {
    let c = Configuration::for_host(
        "node_a",
        schema(vec![info("node_a", "127.0.0.1:8000"), info("node_b", "127.0.0.1:8001"), info("node_a", "127.0.0.1:8005")]),
    );
    assert_eq!(c.host, "node_a");
    assert_eq!(c.discovery_host, "127.0.0.1:8080");
    assert_eq!(c.join_strategy, JoinStrategy::Static);
    assert_eq!(c.seed_nodes.len(), 2);
    assert_eq!(c.max_discovery_timeout, 5_000);
    assert_eq!(c.max_raft_init_timeout, 5_000);
    assert_eq!(c.election_timeout_min, 200);
    let host = c.host_info();
    assert_eq!(host.cluster_address, "127.0.0.1:8005");
    assert!(c.seed_node(&"node_c".to_owned()).is_none());
    let params = c.raft_parameters();
    assert_eq!(params.election_timeout_min, 200);
    assert_eq!(params.election_timeout_max, 300);
    assert_eq!(params.heartbeat_interval, 50);
    assert_eq!(params.metrics_rate_millis, 10);
    let copy = c.duplicate();
    assert_eq!(copy.seed_nodes.len(), 2);
}

#[test]
fn test_seed_nodes_by_name() {
    let nodes = vec![info("a", "1"), info("b", "2"), info("a", "3")];
    let seeds = seed_nodes_by_name(&nodes);
    assert_eq!(seeds.len(), 2);
    let a = seeds.iter().find(|n| n.name == "a").unwrap();
    assert_eq!(a.cluster_address, "3");
    assert_eq!(find_by_name(&nodes, &"b".to_owned()), Some(1));
    assert_eq!(find_by_name(&nodes, &"z".to_owned()), None);
}

#[test]
fn test_fibonacci() {
    let mut actor = FibActor::new();
    assert_eq!(actor.handle(Fibonacci(0)), Err(()));
    assert_eq!(actor.handle(Fibonacci(1)), Ok(1));
    assert_eq!(actor.handle(Fibonacci(2)), Ok(1));
    assert_eq!(actor.handle(Fibonacci(10)), Ok(55));
    assert_eq!(actor.handle(Fibonacci(50)), Ok(12586269025));
}

#[test]
fn test_node_status_reports() {
    let node = Node::new(7, info("b", "x"), 1, info("a", "y"), Proximity::Remote(remote()));
    assert_eq!(node.status, NodeStatus::Initialized);
    assert_eq!(
        node.apply_status_change(NodeStatus::Failure(4)),
        HandleNodeStatusChange { id: 7, status: NodeStatus::Disconnected }
    );
    assert_eq!(
        node.apply_status_change(NodeStatus::Failure(3)),
        HandleNodeStatusChange { id: 7, status: NodeStatus::Failure(3) }
    );
    let outcome = node.on_connect_attempt(Err(NodeError::Timeout("t".to_owned())));
    assert_eq!(outcome.report, HandleNodeStatusChange { id: 7, status: NodeStatus::Failure(1) });
    assert_eq!(outcome.retry_after_secs, Some(3));
    let outcome = node.on_connect_attempt(Ok(Acknowledged));
    assert_eq!(outcome.report, HandleNodeStatusChange { id: 7, status: NodeStatus::WeaklyConnected });
    assert_eq!(outcome.retry_after_secs, None);
    assert_eq!(node.handle_connect_result(Acknowledged), HandleNodeStatusChange { id: 7, status: NodeStatus::Connected });
    assert!(node.disconnect().is_none());
    assert!(NodeStatus::Connected.is_connected());
    assert!(NodeStatus::WeaklyConnected.is_connected());
    assert!(!NodeStatus::Failure(1).is_connected());
    assert!(NodeStatus::Disconnected.is_disconnected());
}

#[test]
fn test_connect_plans() {
    let local_info = info("a", "127.0.0.1:8000");
    let remote_node = Node::new(7, info("b", "127.0.0.1:8001"), 1, local_info.clone(), Proximity::Remote(remote()));
    match remote_node.connect_plan() {
        ConnectPlan::Remote { route, body } => {
            assert_eq!(route, "http://127.0.0.1:8001/api/cluster/nodes/7");
            assert_eq!(body.node_id, Some(NodeId { id: 1 }));
            assert_eq!(body.node_info.unwrap().name, "a");
        }
        other => panic!("unexpected {:?}", other),
    }
    let mut local_node = Node::new(1, local_info.clone(), 1, local_info, Proximity::Local(LocalNode::new(1)));
    assert!(matches!(local_node.connect_plan(), ConnectPlan::Immediate(Ok(Acknowledged))));
    local_node.update_proximity(UpdateProximity::new(1, Proximity::Remote(remote())));
    assert!(matches!(local_node.connect_plan(), ConnectPlan::Remote { .. }));
}

#[test]
fn test_cluster_changes() {
    let local_info = info("a", "127.0.0.1:8000");
    let local = Node::new(1, local_info.clone(), 1, local_info.clone(), Proximity::Local(LocalNode::new(1)));
    match local.join_node(9) {
        ClusterChangeRequest::Local { add_members, remove_members } => {
            assert_eq!(add_members, vec![9]);
            assert!(remove_members.is_empty());
        }
        other => panic!("unexpected {:?}", other),
    }
    let far = Node::new(7, info("b", "127.0.0.1:8001"), 1, local_info, Proximity::Remote(remote()));
    match far.change_cluster_config(ChangeClusterConfig::new_to_add_remove(vec![2], vec![3])) {
        ClusterChangeRequest::Remote { route, command } => {
            assert_eq!(route, "http://127.0.0.1:8001/api/cluster/admin");
            match command {
                RaftProtocolCommand::ProposeConfigChange { add_members, remove_members } => {
                    assert_eq!(add_members, vec![NodeId { id: 2 }]);
                    assert_eq!(remove_members, vec![NodeId { id: 3 }]);
                }
            }
        }
        other => panic!("unexpected {:?}", other),
    }
    let change = connect_node_change(4);
    assert_eq!(change.add_members, vec![4]);
    assert!(change.remove_members.is_empty());
    assert!(ChangeClusterConfig::new_to_remove(vec![5]).add_members.is_empty());
    assert!(change_result(Ok(())).is_ok());
    assert!(matches!(change_result(Err(NodeError::Unknown("u".to_owned()))), Err(NetworkError::NodeError(_))));
    assert!(acknowledge_change(Ok(())).is_ok());
    assert!(matches!(acknowledge_change(Err(NetworkError::NoElectedLeader)), Err(NetworkError::NoElectedLeader)));
}

#[test]
fn test_remote_node_texts() {
    let r = remote();
    assert_eq!(r.scope(), "http://127.0.0.1:8001/api/cluster");
    assert_eq!(r.describe(), "RemoteNode#7(to:http://127.0.0.1:8001/api/cluster)");
    assert_eq!(LocalNode::new(3).describe(), "LocalNode#3");
    assert_eq!(r.raft_route(RaftRpc::AppendEntries), "http://127.0.0.1:8001/api/cluster/entries");
    assert_eq!(r.raft_route(RaftRpc::InstallSnapshot), "http://127.0.0.1:8001/api/cluster/snapshots");
    assert_eq!(r.raft_route(RaftRpc::Vote), "http://127.0.0.1:8001/api/cluster/vote");
}

#[test]
fn test_remote_answers() {
    let r = remote();
    let ok = RaftProtocolResponse { response: Some(Response::Result(ResponseResult::Acknowledged)) };
    assert!(r.interpret_command_response(ok).is_ok());
    let failed = RaftProtocolResponse { response: Some(Response::Failure(Failure { description: "no".to_owned() })) };
    assert!(matches!(r.interpret_command_response(failed), Err(NodeError::ResponseFailure(d)) if d == "no"));
    let rejected = RaftProtocolResponse {
        response: Some(Response::CommandRejectedNotLeader(CommandRejectedNotLeader { leader_id: Some(NodeId { id: 2 }) })),
    };
    assert!(matches!(
        r.interpret_connect_response(rejected),
        Err(NodeError::RemoteNotLeaderError { leader_id: Some(2) })
    ));
    let empty = RaftProtocolResponse { response: None };
    assert!(matches!(
        r.interpret_connect_response(empty),
        Err(NodeError::Unknown(m)) if m == "good ChangeClusterResponse had empty response"
    ));
    let acked = RaftProtocolResponse {
        response: Some(Response::Result(ResponseResult::ConnectionAcknowledged { node_id: Some(NodeId { id: 5 }) })),
    };
    assert_eq!(r.interpret_connect_response(acked).unwrap(), Acknowledged);
}

#[test]
fn test_convert_error_by_kind() {
    let r = remote();
    let mut f = failure();
    f.is_timeout = true;
    f.is_serialization = true;
    assert!(matches!(r.convert_error(f), NodeError::Timeout(m) if m == "boom"));
    let mut f = failure();
    f.is_serialization = true;
    assert!(r.raft_failure_is_fatal(&f));
    assert!(matches!(r.convert_error(f), NodeError::ResponseFailure(m) if m == "boom"));
    let mut f = failure();
    f.is_http = true;
    assert!(matches!(r.convert_error(f), NodeError::RequestError(m) if m == "boom"));
    let mut f = failure();
    f.is_server_error = true;
    assert!(!r.raft_failure_is_fatal(&f));
    assert!(matches!(
        r.convert_error(f),
        NodeError::ResponseFailure(m) if m == "Error in RemoteNode#7(to:http://127.0.0.1:8001/api/cluster) server"
    ));
    let mut f = failure();
    f.is_redirect = true;
    assert!(matches!(
        r.convert_error(f),
        NodeError::Unknown(m) if m == "TODO: PROPERLY HANDLE REDIRECT; E.G., IF REMOTE IS NOT LEADER: details"
    ));
    assert!(matches!(r.convert_error(failure()), NodeError::RequestError(m) if m == "boom"));
}

#[test]
fn test_raft_builder_requirements() {
    let mut b = RaftBuilder::new(3);
    assert!(matches!(b.check_requirements(), Err(ConfigurationError::Unknown(m)) if m == "No means to build RaftStorage was provided"));
    b.with_storage_factory();
    assert!(b.check_requirements().is_ok());
    assert!(matches!(b.check_build(), Err(ConfigurationError::NoConfiguration)));
    b.with_configuration(Configuration::for_host("node_a", schema(vec![info("node_a", "1")])));
    assert!(b.check_build().is_ok());
    b.with_seed_members(&vec![1, 2]);
    b.push_seed_member(3);
    assert_eq!(b.seed_members, vec![1, 2, 3]);
    b.with_network();
    assert!(b.network_set);
}

#[test]
fn test_raft_system_builder_plan() {
    let mut b = RaftSystemBuilder::new(11);
    assert!(matches!(
        b.build_plan(),
        Err(RaftSystemError::Configuration(ConfigurationError::Unknown(m))) if m == "No means to configuration Raft system was provided"
    ));
    b.with_configuration(Configuration::for_host("node_z", schema(vec![info("node_a", "1")])));
    assert!(matches!(
        b.build_plan(),
        Err(RaftSystemError::Configuration(ConfigurationError::Unknown(m))) if m == "No means to build RaftStorage was provided"
    ));
    b.with_storage_factory();
    assert!(matches!(b.build_plan(), Err(RaftSystemError::BuilderError(m)) if m == "NoneError"));
    b.with_configuration(Configuration::for_host("node_a", schema(vec![info("node_a", "1")])));
    b.bind_with();
    let plan = b.build_plan().unwrap();
    assert_eq!(plan.host_id, 11);
    assert_eq!(plan.host_info.name, "node_a");
    assert!(plan.create_network);
    assert!(!plan.create_server_data);
}

#[test]
fn test_not_leader_answer_round_trip() {
    let r = remote();
    let answer = RaftProtocolResponse { response: Some(Response::from_error(
        actix_raft_scaffold::network::messages::RaftProtocolError::NodeNotLeader(Some(4)),
    )) };
    assert!(matches!(
        r.interpret_command_response(answer),
        Err(NodeError::RemoteNotLeaderError { leader_id: Some(4) })
    ));
    let answer = RaftProtocolResponse { response: Some(Response::from_error(
        actix_raft_scaffold::network::messages::RaftProtocolError::NodeNotLeader(None),
    )) };
    assert!(matches!(
        r.interpret_command_response(answer),
        Err(NodeError::RemoteNotLeaderError { leader_id: None })
    ));
}

#[test]
fn test_local_cluster_change_is_accepted_at_once() {
    let local_info = info("a", "127.0.0.1:8000");
    let local = Node::new(1, local_info.clone(), 1, local_info.clone(), Proximity::Local(LocalNode::new(1)));
    let request = local.change_cluster_config(ChangeClusterConfig::new_to_add_remove(vec![2], vec![]));
    assert!(matches!(immediate_change_result(&request), Some(Ok(()))));
    let far = Node::new(7, info("b", "127.0.0.1:8001"), 1, local_info, Proximity::Remote(remote()));
    let request = far.change_cluster_config(ChangeClusterConfig::new_to_add(vec![2]));
    assert!(immediate_change_result(&request).is_none());
}
