use actix_raft_scaffold::network::state::{
    raft_state_target, Extent, NetworkState, RaftStateTarget, StateError, Status, StatusEntry,
};
use actix_raft_scaffold::network::summary::RaftState;

#[test]
fn test_default_state_is_joining_single_node() {
    let state = NetworkState::default_at(1_000);
    assert_eq!(state.unwrap(), Status::Joining);
    assert_eq!(state.extent(), Extent::SingleNode);
    assert!(!state.is_connected());
    let timeline = state.timeline();
    assert_eq!(timeline.len(), 1);
    assert_eq!(timeline[0], StatusEntry { status: Status::Joining, entry: 1_000, exit: None });
    assert_eq!(state.describe(), "Joining:SingleNode");
}

#[test]
fn test_valid_and_invalid_transitions() {
    let state = NetworkState::default_at(0);
    assert_eq!(state.check_next_status(Status::Up), Ok(Status::Up));
    assert_eq!(state.check_next_status(Status::WeaklyUp), Ok(Status::WeaklyUp));
    assert_eq!(state.check_next_status(Status::Down), Ok(Status::Down));
    assert_eq!(
        state.check_next_status(Status::Leaving),
        Err(StateError::InvalidStatusTransition(Status::Joining, Status::Leaving))
    );
    assert_eq!(
        StateError::InvalidStatusTransition(Status::Joining, Status::Leaving).message(),
        "cannot transition from Joining status to Leaving"
    );
}

#[test]
fn test_removed_is_final() {
    let mut state = NetworkState::default_at(0);
    assert_eq!(state.advance_at(Status::Down, 10), Status::Joining);
    assert_eq!(state.advance_at(Status::Removed, 20), Status::Down);
    for next in [
        Status::Joining,
        Status::WeaklyUp,
        Status::Up,
        Status::Leaving,
        Status::Exiting,
        Status::Down,
        Status::Removed,
    ] {
        assert_eq!(
            state.check_next_status(next),
            Err(StateError::InvalidStatusTransition(Status::Removed, next))
        );
    }
}

#[test]
fn test_advance_closes_and_opens_entries() {
    let mut state = NetworkState::default_at(100);
    assert_eq!(state.advance_at(Status::WeaklyUp, 150), Status::Joining);
    assert_eq!(state.advance_at(Status::Up, 400), Status::WeaklyUp);
    assert_eq!(state.advance_at(Status::Leaving, 1_000), Status::Up);
    let timeline = state.timeline();
    assert_eq!(
        timeline,
        vec![
            StatusEntry { status: Status::Joining, entry: 100, exit: Some(150) },
            StatusEntry { status: Status::WeaklyUp, entry: 150, exit: Some(400) },
            StatusEntry { status: Status::Up, entry: 400, exit: Some(1_000) },
            StatusEntry { status: Status::Leaving, entry: 1_000, exit: None },
        ]
    );
    assert_eq!(state.duration_in_at(Status::Up, 5_000), 600);
    assert_eq!(state.duration_in_at(Status::Leaving, 5_000), 4_000);
    assert_eq!(state.duration_in_at(Status::Exiting, 5_000), 0);
    assert!(state.duration_in(Status::Joining) == Some(50));
}

#[test]
fn test_status_entry_duration() {
    let closed = StatusEntry { status: Status::Up, entry: 10, exit: Some(35) };
    assert_eq!(closed.duration_in_at(1_000), 25);
    assert_eq!(closed.duration_in(), Some(25));
    let open = StatusEntry::new(Status::Up, 10);
    assert_eq!(open.duration_in_at(110), 100);
}

#[test]
fn test_isolation_keeps_nodes_disjoint() {
    let mut state = NetworkState::default_at(0);
    state.isolate_node(7);
    state.isolate_node(7);
    assert!(state.is_isolated_node(7));
    assert!(!state.is_connected_node(7));
    assert!(!state.is_connected());
    state.restore_node(7);
    assert!(state.is_connected_node(7));
    assert!(!state.is_isolated_node(7));
    assert!(state.is_connected());
    state.restore_node(8);
    assert!(!state.is_connected_node(8));
    state.restore_node(9);
    state.isolate_node(9);
    state.restore_node(9);
    assert_eq!(state.extent(), Extent::Cluster);
    assert_eq!(state.describe(), "Joining:Cluster");
    state.isolate_node(7);
    assert_eq!(state.connected_nodes().len(), 1);
    assert_eq!(state.isolated_nodes().len(), 1);
}

#[test]
fn test_raft_state_targets() {
    assert_eq!(raft_state_target(Status::Joining, RaftState::NonVoter, true), RaftStateTarget::Stay);
    assert_eq!(raft_state_target(Status::Joining, RaftState::Follower, true), RaftStateTarget::MoveTo(Status::Up));
    assert_eq!(raft_state_target(Status::Joining, RaftState::Follower, false), RaftStateTarget::Stay);
    assert_eq!(raft_state_target(Status::Joining, RaftState::Leader, false), RaftStateTarget::Stay);
    assert_eq!(raft_state_target(Status::WeaklyUp, RaftState::Candidate, true), RaftStateTarget::MoveTo(Status::Up));
    assert_eq!(raft_state_target(Status::WeaklyUp, RaftState::Candidate, false), RaftStateTarget::Stay);
    assert_eq!(raft_state_target(Status::Up, RaftState::NonVoter, false), RaftStateTarget::MoveTo(Status::Leaving));
    assert_eq!(raft_state_target(Status::Up, RaftState::Leader, true), RaftStateTarget::Stay);
    assert_eq!(raft_state_target(Status::Down, RaftState::NonVoter, false), RaftStateTarget::MoveTo(Status::Joining));
    assert_eq!(raft_state_target(Status::Down, RaftState::Leader, true), RaftStateTarget::Stay);
    assert_eq!(raft_state_target(Status::Removed, RaftState::Leader, true), RaftStateTarget::Stay);
    assert_eq!(raft_state_target(Status::Leaving, RaftState::NonVoter, true), RaftStateTarget::Stay);
}

#[test]
fn test_status_and_extent_names() {
    assert_eq!(Status::WeaklyUp.name(), "WeaklyUp");
    assert_eq!(Status::Removed.name(), "Removed");
    assert_eq!(Extent::SingleNode.name(), "SingleNode");
    assert_eq!(Extent::Cluster.name(), "Cluster");
}

#[test]
fn test_duplicate_state() {
    let mut state = NetworkState::default_at(5);
    state.isolate_node(3);
    state.advance_at(Status::Up, 6);
    let copy = state.duplicate();
    assert_eq!(copy.unwrap(), Status::Up);
    assert!(copy.is_isolated_node(3));
    assert_eq!(copy.timeline(), state.timeline());
}
