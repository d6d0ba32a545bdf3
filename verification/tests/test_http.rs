use actix_raft_scaffold::network::messages::{
    optional_id_string, Acknowledged, MembershipAction as Action, RaftProtocolError,
};
use actix_raft_scaffold::ports::http::entities::raft_append_entries_response::Conflict;
use actix_raft_scaffold::ports::http::entities::raft_protocol_command_response::Response;
use actix_raft_scaffold::ports::http::entities::{
    self, ClusterState, ConflictOpt, MembershipAction, NodeId, NodeInfoMessage, ResponseResult,
};
use actix_raft_scaffold::ports::http::routes::{
    connect_command, connect_response, disconnect_command, node_body, node_id_from_path,
    node_query, parse_u64, trim, IntErrorKind,
};
use actix_raft_scaffold::network::messages::DisconnectNode;
use actix_raft_scaffold::network::summary;
use actix_raft_scaffold::text::decimal_string;
use actix_raft_scaffold::NodeInfo;

fn node_a() -> NodeInfo {
    NodeInfo {
        name: "node_a".to_owned(),
        cluster_address: "127.0.0.1:8000".to_owned(),
        app_address: "127.0.0.1:9000".to_owned(),
        public_address: "127.0.0.1:8080".to_owned(),
    }
}

#[test]
fn test_trim_white_space() {
    assert_eq!(trim("  42 \t\n"), "42");
    assert_eq!(trim(""), "");
    assert_eq!(trim("   "), "");
    assert_eq!(trim("a b"), "a b");
    assert_eq!(trim("\u{3000}x\u{a0}"), "x");
}

#[test]
fn test_parse_u64_like_std() {
    for text in ["0", "42", "+7", "-1", "-", "+", "", "12a", "18446744073709551615", "18446744073709551616", "007"] {
        let ours = parse_u64(text).map_err(|e| e.kind);
        let std = text.parse::<u64>().map_err(|e| match e.kind() {
            std::num::IntErrorKind::Empty => IntErrorKind::Empty,
            std::num::IntErrorKind::InvalidDigit => IntErrorKind::InvalidDigit,
            std::num::IntErrorKind::PosOverflow => IntErrorKind::PosOverflow,
            other => panic!("unexpected kind {:?}", other),
        });
        assert_eq!(ours, std, "reading {:?}", text);
    }
    assert_eq!(parse_u64("18446744073709551615"), Ok(u64::MAX));
}

#[test]
fn test_node_id_from_path() {
    assert_eq!(node_id_from_path(Some(" 3473232121428402785 ")), Ok(3473232121428402785));
    assert_eq!(node_id_from_path(None).unwrap_err().kind, IntErrorKind::Empty);
    assert_eq!(node_id_from_path(Some("abc")).unwrap_err().kind, IntErrorKind::InvalidDigit);
    assert_eq!(node_id_from_path(Some("99999999999999999999")).unwrap_err().kind, IntErrorKind::PosOverflow);
}

#[test]
fn test_node_path_round_trip() {
    for n in [0u64, 1, 9, 10, 12345, 3473232121428402785, u64::MAX] {
        let written = decimal_string(n);
        assert_eq!(written, n.to_string());
        assert_eq!(node_id_from_path(Some(written.as_str())), Ok(n));
    }
}

#[test]
fn test_connect_command_and_response() {
    let a = node_a();
    let body = NodeInfoMessage {
        node_id: Some(NodeId { id: 17 }),
        node_info: Some(entities::NodeInfo::from_info(a.clone())),
    };
    let cmd = connect_command(body);
    assert_eq!(cmd.id, 17);
    assert!(cmd.info.equals(&a));

    let resp = connect_response(10);
    let big = connect_response(3473232121428402785);
    assert!(matches!(
        big.response,
        Some(Response::Result(ResponseResult::ConnectionAcknowledged { node_id: Some(NodeId { id: 3473232121428402785 }) }))
    ));
    match resp.response {
        Some(Response::Result(ResponseResult::ConnectionAcknowledged { node_id })) => {
            assert_eq!(node_id, Some(NodeId { id: 10 }));
        }
        other => panic!("unexpected {:?}", other),
    }
    assert_eq!(disconnect_command(5), DisconnectNode(5));
    let q = node_query(9);
    assert_eq!(q.node_id, Some(9));
    assert!(q.cluster_address.is_none());
    let (id, wire) = node_body(9, Some(a.clone()));
    assert_eq!(id, 9);
    assert_eq!(wire.unwrap().cluster_address, a.cluster_address);
    assert!(node_body(9, None).1.is_none());
}

#[test]
fn test_raft_protocol_error_texts_and_codes() {
    assert_eq!(RaftProtocolError::NodeNotLeader(Some(3)).status_code(), 307);
    assert_eq!(RaftProtocolError::Noop.status_code(), 500);
    assert_eq!(
        RaftProtocolError::NodeNotLeader(Some(3)).message(),
        "The node the config change proposal was sent to was not the leader of the cluster - leader:Some(3)"
    );
    assert_eq!(
        RaftProtocolError::NodeNotLeader(None).message(),
        "The node the config change proposal was sent to was not the leader of the cluster - leader:None"
    );
    assert_eq!(
        RaftProtocolError::ClientError("bad".to_owned()).message(),
        "An error related to the processing of the config change request:bad"
    );
    assert_eq!(RaftProtocolError::Internal.message(), "An internal error has taken place.");
    assert_eq!(
        RaftProtocolError::InoperableConfig.message(),
        "The given config would leave the cluster in an inoperable state."
    );
    assert_eq!(
        RaftProtocolError::Noop.message(),
        "The proposed config changes would make no difference to the current config."
    );
    assert_eq!(optional_id_string(Some(12)), format!("{:?}", Some(12u64)));
    assert_eq!(optional_id_string(None), format!("{:?}", None::<u64>));
}

#[test]
fn test_response_from_error() {
    match Response::from_error(RaftProtocolError::NodeNotLeader(Some(4))) {
        Response::CommandRejectedNotLeader(c) => assert_eq!(c.leader_id, Some(NodeId { id: 4 })),
        other => panic!("unexpected {:?}", other),
    }
    match Response::from_error(RaftProtocolError::ClientError("x".to_owned())) {
        Response::Failure(f) => assert_eq!(f.description, "x"),
        other => panic!("unexpected {:?}", other),
    }
    match Response::from_error(RaftProtocolError::Internal) {
        Response::Failure(f) => assert_eq!(f.description, "An internal error has taken place."),
        other => panic!("unexpected {:?}", other),
    }
}

#[test]
fn test_wire_forms_round_trip() {
    let ids = vec![1u64, 5, 9];
    let wire = NodeId::vec_from_raft(&ids);
    assert_eq!(wire, vec![NodeId { id: 1 }, NodeId { id: 5 }, NodeId { id: 9 }]);
    assert_eq!(NodeId::vec_to_raft(&wire), ids);
    assert_eq!(NodeId::from(8).into_raft(), 8);

    let config = summary::MembershipConfig {
        is_in_joint_consensus: true,
        members: vec![1, 2],
        non_voters: vec![3],
        removing: vec![],
    };
    let back = entities::MembershipConfig::from_raft(&config).into_raft();
    assert_eq!(back.is_in_joint_consensus, true);
    assert_eq!(back.members, vec![1, 2]);
    assert_eq!(back.non_voters, vec![3]);
    assert!(back.removing.is_empty());

    assert_eq!(MembershipAction::from_action(Action::Joining), MembershipAction::Added);
    assert_eq!(MembershipAction::Removed.into_action(), Action::Leaving);
    assert_eq!(MembershipAction::Added.code(), 0);
    assert_eq!(MembershipAction::Removed.code(), 1);
    assert_eq!(ClusterState::Initialized.code(), 0);
    assert_eq!(ClusterState::SingleNode.code(), 1);
    assert_eq!(ClusterState::Cluster.code(), 2);

    let opt = ConflictOpt { term: 3, index: 7 };
    assert_eq!(Conflict::from_opt(opt).into_opt(), opt);

    let info = node_a();
    let round = entities::NodeInfo::from_info(info.clone()).into_info();
    assert!(round.equals(&info));
}

#[test]
fn test_acknowledged_from_result() {
    let _ = Acknowledged::from_result(ResponseResult::Acknowledged);
    let _ = Acknowledged::from_result(ResponseResult::ConnectionAcknowledged { node_id: None });
}
