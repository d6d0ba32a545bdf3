//! A snapshot of the network and of the Raft node it hosts.
use vstd::prelude::*;
use crate::NodeInfo;
use super::state::NetworkState;

verus! {

/// All possible states of a Raft node.
#[derive(Debug, Clone, Copy, PartialEq, Eq, Structural)]
pub enum RaftState {
    /// The node is completely passive; replicating entries, but not voting or timing out.
    NonVoter,
    /// The node is actively replicating logs from the leader.
    Follower,
    /// The node has detected an election timeout so is requesting votes to become leader.
    Candidate,
    /// The node is actively functioning as the Raft cluster leader.
    Leader,
}

/// The membership configuration of the Raft cluster, by node id.
#[derive(Debug)]
pub struct MembershipConfig {
    /// Whether the cluster is in joint consensus.
    pub is_in_joint_consensus: bool,
    /// Voting members of the cluster.
    pub members: Vec<u64>,
    /// Non-voting members being brought up to speed.
    pub non_voters: Vec<u64>,
    /// Members to remove once joint consensus is complete.
    pub removing: Vec<u64>,
}

/// A copy of a list of node ids.
pub fn copy_ids(ids: &Vec<u64>) -> (r: Vec<u64>)
    ensures
        r@ == ids@,
{
    let mut r = Vec::new();
    let n = ids.len();
    for i in 0..n
        invariant
            n == ids@.len(),
            r@ == ids@.take(i as int),
    {
        r.push(ids[i]);
        assert(ids@.take(i + 1) == ids@.take(i as int).push(ids@[i as int]));
    }
    assert(ids@.take(n as int) == ids@);
    r
}

impl MembershipConfig {
    /// A copy of this membership configuration.
    pub fn duplicate(&self) -> (r: MembershipConfig)
        ensures
            r.is_in_joint_consensus == self.is_in_joint_consensus,
            r.members@ == self.members@,
            r.non_voters@ == self.non_voters@,
            r.removing@ == self.removing@,
    {
        MembershipConfig {
            is_in_joint_consensus: self.is_in_joint_consensus,
            members: copy_ids(&self.members),
            non_voters: copy_ids(&self.non_voters),
            removing: copy_ids(&self.removing),
        }
    }
}

/// Baseline metrics of the current state of the Raft node.
#[derive(Debug)]
pub struct Metrics {
    /// The ID of the Raft node.
    pub id: u64,
    /// The state of the Raft node.
    pub state: RaftState,
    /// The current term of the Raft node.
    pub current_term: u64,
    /// The last log index appended to this node's log.
    pub last_log_index: u64,
    /// The last log index applied to this node's state machine.
    pub last_applied: u64,
    /// The current cluster leader.
    pub current_leader: Option<u64>,
    /// The current membership config of the cluster.
    pub membership_config: MembershipConfig,
}

impl Metrics {
    /// A copy of these metrics.
    pub fn duplicate(&self) -> (r: Metrics)
        ensures
            r.id == self.id,
            r.state == self.state,
            r.current_term == self.current_term,
            r.last_log_index == self.last_log_index,
            r.last_applied == self.last_applied,
            r.current_leader == self.current_leader,
            r.membership_config.is_in_joint_consensus
                == self.membership_config.is_in_joint_consensus,
            r.membership_config.members@ == self.membership_config.members@,
            r.membership_config.non_voters@ == self.membership_config.non_voters@,
            r.membership_config.removing@ == self.membership_config.removing@,
    {
        Metrics {
            id: self.id,
            state: self.state,
            current_term: self.current_term,
            last_log_index: self.last_log_index,
            last_applied: self.last_applied,
            current_leader: self.current_leader,
            membership_config: self.membership_config.duplicate(),
        }
    }
}

/// A summary of the network: its id, state, node info and the Raft metrics last received.
pub struct ClusterSummary {
    pub id: u64,
    pub state: NetworkState,
    pub info: NodeInfo,
    pub metrics: Option<Metrics>,
}

} // verus!
