//! The entities exchanged with other nodes over HTTP.
use vstd::prelude::*;
use std::collections::HashMap;
use crate::network::summary;

pub mod entry;
pub mod raft_append_entries_response;
pub mod raft_protocol_command_response;

verus! {

/// A command of the Raft protocol sent to the leader.
#[derive(Debug)]
pub enum RaftProtocolCommand {
    ProposeConfigChange { add_members: Vec<NodeId>, remove_members: Vec<NodeId> },
}

/// Opaque serialized data.
#[derive(Debug)]
pub struct Any {
    /// The serialized bytes.
    pub value: Vec<u8>,
}

/// The description of a failure.
#[derive(Debug)]
pub struct Failure {
    pub description: String,
}

/// A node id on the wire.
#[derive(Debug, Clone, Copy, PartialEq, Eq, Structural)]
pub struct NodeId {
    pub id: u64,
}

/// The id carried by a wire node id.
pub open spec fn raw_id(n: NodeId) -> u64 {
    n.id
}

/// The wire node id of an id.
pub open spec fn wire_id(id: u64) -> NodeId {
    NodeId { id }
}

impl NodeId {
    /// The ids of a list of wire node ids.
    pub fn vec_to_raft(ids: &Vec<NodeId>) -> (r: Vec<u64>)
        ensures
            r@ == ids@.map_values(|n: NodeId| raw_id(n)),
    {
        let mut r = Vec::new();
        let n = ids.len();
        for i in 0..n
            invariant
                n == ids@.len(),
                r@ == ids@.take(i as int).map_values(|n: NodeId| raw_id(n)),
        {
            r.push(ids[i].id);
            assert(ids@.take(i + 1).map_values(|n: NodeId| raw_id(n)) =~= ids@.take(
                i as int,
            ).map_values(|n: NodeId| raw_id(n)).push(ids@[i as int].id));
        }
        assert(ids@.take(n as int) == ids@);
        r
    }

    /// The wire node ids of a list of ids.
    pub fn vec_from_raft(ids: &Vec<u64>) -> (r: Vec<NodeId>)
        ensures
            r@ == ids@.map_values(|id: u64| wire_id(id)),
    {
        let mut r = Vec::new();
        let n = ids.len();
        for i in 0..n
            invariant
                n == ids@.len(),
                r@ == ids@.take(i as int).map_values(|id: u64| wire_id(id)),
        {
            r.push(NodeId { id: ids[i] });
            assert(ids@.take(i + 1).map_values(|id: u64| wire_id(id)) =~= ids@.take(
                i as int,
            ).map_values(|id: u64| wire_id(id)).push(NodeId { id: ids@[i as int] }));
        }
        assert(ids@.take(n as int) == ids@);
        r
    }

    /// The wire node id of `node_id`.
    pub fn from(node_id: u64) -> (r: NodeId)
        ensures
            r.id == node_id,
    {
        NodeId { id: node_id }
    }

    /// The id this wire node id carries.
    pub fn into_raft(self) -> (r: u64)
        ensures
            r == self.id,
    {
        self.id
    }
}

/// A node's name and addresses on the wire.
#[derive(Debug)]
pub struct NodeInfo {
    pub name: String,
    pub cluster_address: String,
    pub app_address: String,
    pub public_address: String,
}

impl NodeInfo {
    /// The wire form of a node info.
    pub fn from_info(info: crate::NodeInfo) -> (r: NodeInfo)
        ensures
            r.name == info.name,
            r.cluster_address == info.cluster_address,
            r.app_address == info.app_address,
            r.public_address == info.public_address,
    {
        NodeInfo {
            name: info.name,
            cluster_address: info.cluster_address,
            app_address: info.app_address,
            public_address: info.public_address,
        }
    }

    /// The node info of this wire form.
    pub fn into_info(self) -> (r: crate::NodeInfo)
        ensures
            r.name == self.name,
            r.cluster_address == self.cluster_address,
            r.app_address == self.app_address,
            r.public_address == self.public_address,
    {
        crate::NodeInfo {
            name: self.name,
            cluster_address: self.cluster_address,
            app_address: self.app_address,
            public_address: self.public_address,
        }
    }

    /// A copy of this wire node info.
    pub fn duplicate(&self) -> (r: NodeInfo)
        ensures
            r == *self,
    {
        NodeInfo {
            name: self.name.clone(),
            cluster_address: self.cluster_address.clone(),
            app_address: self.app_address.clone(),
            public_address: self.public_address.clone(),
        }
    }
}

/// The answer of a node that is not the leader: the leader it knows of, if any.
#[derive(Debug)]
pub struct CommandRejectedNotLeader {
    pub leader_id: Option<NodeId>,
}

/// A Raft log entry.
#[derive(Debug)]
pub struct Entry {
    /// This entry's term.
    pub term: u64,
    /// This entry's index.
    pub index: u64,
    /// This entry's payload.
    pub payload: Option<entry::Payload>,
}

/// A normal log entry.
#[derive(Debug)]
pub struct EntryNormal {
    pub entry: Option<Normal>,
}

/// The data of a normal log entry.
#[derive(Debug)]
pub struct Normal {
    pub data: Option<Any>,
}

impl Normal {
    /// A normal entry holding `data`.
    pub fn new(data: Any) -> (r: Normal)
        ensures
            r.data == Some(data),
    {
        Normal { data: Some(data) }
    }
}

/// The membership configuration of the cluster on the wire.
#[derive(Debug)]
pub struct MembershipConfig {
    /// Whether the cluster is in joint consensus.
    pub is_in_joint_consensus: bool,
    /// Voting members of the cluster.
    pub members: Vec<NodeId>,
    /// Non-voting members of the cluster.
    pub non_voters: Vec<NodeId>,
    /// Members to remove once joint consensus is complete.
    pub removing: Vec<NodeId>,
}

impl MembershipConfig {
    /// The wire form of a membership configuration.
    pub fn from_raft(that: &summary::MembershipConfig) -> (r: MembershipConfig)
        ensures
            r.is_in_joint_consensus == that.is_in_joint_consensus,
            r.members@ == that.members@.map_values(|id: u64| wire_id(id)),
            r.non_voters@ == that.non_voters@.map_values(|id: u64| wire_id(id)),
            r.removing@ == that.removing@.map_values(|id: u64| wire_id(id)),
    {
        MembershipConfig {
            is_in_joint_consensus: that.is_in_joint_consensus,
            members: NodeId::vec_from_raft(&that.members),
            non_voters: NodeId::vec_from_raft(&that.non_voters),
            removing: NodeId::vec_from_raft(&that.removing),
        }
    }

    /// The membership configuration of this wire form.
    pub fn into_raft(&self) -> (r: summary::MembershipConfig)
        ensures
            r.is_in_joint_consensus == self.is_in_joint_consensus,
            r.members@ == self.members@.map_values(|n: NodeId| raw_id(n)),
            r.non_voters@ == self.non_voters@.map_values(|n: NodeId| raw_id(n)),
            r.removing@ == self.removing@.map_values(|n: NodeId| raw_id(n)),
    {
        summary::MembershipConfig {
            is_in_joint_consensus: self.is_in_joint_consensus,
            members: NodeId::vec_to_raft(&self.members),
            non_voters: NodeId::vec_to_raft(&self.non_voters),
            removing: NodeId::vec_to_raft(&self.removing),
        }
    }
}

/// A log entry pointing to a snapshot.
#[derive(Debug)]
pub struct SnapshotPath {
    pub path: String,
}

/// The term and index of the most recent entry that does not conflict with a request.
#[derive(Debug, Clone, Copy, PartialEq, Eq, Structural)]
pub struct ConflictOpt {
    pub term: u64,
    pub index: u64,
}

/// A message naming a node.
#[derive(Debug)]
pub struct NodeIdMessage {
    pub node_id: Option<NodeId>,
}

/// A message naming a node and giving its info.
#[derive(Debug)]
pub struct NodeInfoMessage {
    pub node_id: Option<NodeId>,
    pub node_info: Option<NodeInfo>,
}

/// A request for the nodes of the cluster.
#[derive(Debug)]
pub struct ClusterNodesRequest {}

/// The nodes of the cluster by id.
#[derive(Debug)]
pub struct ClusterNodesResponse {
    pub nodes: HashMap<u64, NodeInfo>,
}

/// A request for the state of the cluster.
#[derive(Debug)]
pub struct ClusterStateRequest {}

/// The state of the cluster.
#[derive(Debug)]
pub struct ClusterStateResponse {
    pub state: ClusterState,
}

/// An append-entries RPC of the Raft protocol.
#[derive(Debug)]
pub struct RaftAppendEntriesRequest {
    /// The id of the intended recipient of this RPC.
    pub target: u64,
    /// The leader's current term.
    pub term: u64,
    /// The leader's id.
    pub leader_id: u64,
    /// The index of the log entry immediately preceding the new entries.
    pub prev_log_index: u64,
    /// The term of the `prev_log_index` entry.
    pub prev_log_term: u64,
    /// The new log entries to store; empty for heartbeats.
    pub entries: Vec<Entry>,
    /// The leader's commit index.
    pub leader_commit: u64,
}

/// The answer to an append-entries RPC.
#[derive(Debug)]
pub struct RaftAppendEntriesResponse {
    /// The responding node's current term.
    pub term: u64,
    /// Whether the follower held the entry matching `prev_log_index` and `prev_log_term`.
    pub success: bool,
    /// Where the logs agree, when `success` is false.
    pub conflict: Option<raft_append_entries_response::Conflict>,
}

/// An install-snapshot RPC of the Raft protocol.
#[derive(Debug)]
pub struct RaftInstallSnapshotRequest {
    /// The id of the intended recipient of this RPC.
    pub target: u64,
    /// The leader's current term.
    pub term: u64,
    /// The leader's id.
    pub leader_id: u64,
    /// The snapshot replaces all log entries up through and including this index.
    pub last_included_index: u64,
    /// The term of `last_included_index`.
    pub last_included_term: u64,
    /// The byte offset of this chunk in the snapshot.
    pub offset: u64,
    /// The bytes of this chunk.
    pub data: Vec<u8>,
    /// Whether this is the last chunk.
    pub done: bool,
}

/// The answer to an install-snapshot RPC.
#[derive(Debug)]
pub struct RaftInstallSnapshotResponse {
    /// The receiving node's current term.
    pub term: u64,
}

/// A vote RPC of the Raft protocol.
#[derive(Debug)]
pub struct RaftVoteRequest {
    /// The id of the intended recipient of this RPC.
    pub target: u64,
    /// The candidate's current term.
    pub term: u64,
    /// The candidate's id.
    pub candidate_id: u64,
    /// The index of the candidate's last log entry.
    pub last_log_index: u64,
    /// The term of the candidate's last log entry.
    pub last_log_term: u64,
}

/// The answer to a vote RPC.
#[derive(Debug)]
pub struct RaftVoteResponse {
    /// The responding node's current term.
    pub term: u64,
    /// Whether the candidate received the vote.
    pub vote_granted: bool,
    /// Whether the candidate is unknown to the responding node's config.
    pub is_candidate_unknown: bool,
}

/// The answer of a node to a command of the Raft protocol.
#[derive(Debug)]
pub struct RaftProtocolResponse {
    pub response: Option<raft_protocol_command_response::Response>,
}

/// The result of an accepted command.
#[derive(Debug, Clone, Copy, PartialEq, Eq, Structural)]
pub enum ResponseResult {
    Acknowledged,
    ConnectionAcknowledged { node_id: Option<NodeId> },
}

/// The state of the cluster on the wire.
#[derive(Debug, Clone, Copy, PartialEq, Eq, Structural)]
pub enum ClusterState {
    Initialized,
    SingleNode,
    Cluster,
}

impl ClusterState {
    /// The wire code of the state.
    pub fn code(&self) -> (r: i32)
        ensures
            r == match *self {
                ClusterState::Initialized => 0i32,
                ClusterState::SingleNode => 1i32,
                ClusterState::Cluster => 2i32,
            },
    {
        match self {
            ClusterState::Initialized => 0,
            ClusterState::SingleNode => 1,
            ClusterState::Cluster => 2,
        }
    }
}

/// A change of membership on the wire.
#[derive(Debug, Clone, Copy, PartialEq, Eq, Structural)]
pub enum MembershipAction {
    Added,
    Removed,
}

impl MembershipAction {
    /// The wire code of the action.
    pub fn code(&self) -> (r: i32)
        ensures
            r == match *self {
                MembershipAction::Added => 0i32,
                MembershipAction::Removed => 1i32,
            },
    {
        match self {
            MembershipAction::Added => 0,
            MembershipAction::Removed => 1,
        }
    }

    /// The wire form of a membership action: joining is added, leaving is removed.
    pub fn from_action(that: crate::network::messages::MembershipAction) -> (r: MembershipAction)
        ensures
            r == wire_action(that),
    {
        match that {
            crate::network::messages::MembershipAction::Joining => MembershipAction::Added,
            crate::network::messages::MembershipAction::Leaving => MembershipAction::Removed,
        }
    }

    /// The membership action of this wire form: added is joining, removed is leaving.
    pub fn into_action(self) -> (r: crate::network::messages::MembershipAction)
        ensures
            r == action_of(self),
    {
        match self {
            MembershipAction::Added => crate::network::messages::MembershipAction::Joining,
            MembershipAction::Removed => crate::network::messages::MembershipAction::Leaving,
        }
    }
}

/// Ids written to the wire and read back are the ids written.
pub proof fn law_node_ids_round_trip(ids: Seq<u64>)
    ensures
        ids.map_values(|id: u64| wire_id(id)).map_values(|n: NodeId| raw_id(n)) == ids,
{
    assert(ids.map_values(|id: u64| wire_id(id)).map_values(|n: NodeId| raw_id(n)) =~= ids);
}

/// Wire ids read and written back are the wire ids read.
pub proof fn law_wire_ids_round_trip(ids: Seq<NodeId>)
    ensures
        ids.map_values(|n: NodeId| raw_id(n)).map_values(|id: u64| wire_id(id)) == ids,
{
    assert(ids.map_values(|n: NodeId| raw_id(n)).map_values(|id: u64| wire_id(id)) =~= ids);
}

/// The wire form of a membership action.
pub open spec fn wire_action(a: crate::network::messages::MembershipAction) -> MembershipAction {
    match a {
        crate::network::messages::MembershipAction::Joining => MembershipAction::Added,
        crate::network::messages::MembershipAction::Leaving => MembershipAction::Removed,
    }
}

/// The membership action of a wire form.
pub open spec fn action_of(w: MembershipAction) -> crate::network::messages::MembershipAction {
    match w {
        MembershipAction::Added => crate::network::messages::MembershipAction::Joining,
        MembershipAction::Removed => crate::network::messages::MembershipAction::Leaving,
    }
}

/// Membership actions and their wire forms map one to one onto each other.
pub proof fn law_membership_action_round_trip(
    a: crate::network::messages::MembershipAction,
    w: MembershipAction,
)
    ensures
        action_of(wire_action(a)) == a,
        wire_action(action_of(w)) == w,
{
}

} // verus!
