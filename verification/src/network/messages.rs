//! The messages the network exchanges, and its errors.
use vstd::prelude::*;
use vstd::string::StringExecFns;
use crate::NodeInfo;
use crate::ports::PortError;
use crate::ports::http::entities;
use crate::text::{decimal, decimal_string};
use super::node::{NodeError, NodeStatus};

verus! {

/// Errors of the network.
#[derive(Debug)]
pub enum NetworkError {
    /// The network endpoint could not be bound.
    NetworkBindError(PortError),
    /// A delay timer failed; the timer's message.
    DelayError(String),
    /// An actor mailbox failed; the mailbox's message.
    ActorMailBoxError(String),
    /// The request was made to a node that is not the leader.
    NotLeader { leader_id: Option<u64>, leader_address: Option<String> },
    /// The cluster has no elected leader.
    NoElectedLeader,
    /// A delegated node failed.
    NodeError(NodeError),
    /// Any other network error.
    Unknown(String),
}

/// Errors of a proposed change of the cluster configuration.
#[derive(Debug)]
pub enum RaftProtocolError {
    /// An error in processing the config change request; its description.
    ClientError(String),
    /// The config would leave the cluster in an inoperable state.
    InoperableConfig,
    /// An internal error; safe to retry.
    Internal,
    /// The node the proposal was sent to is not the leader; the leader, if known.
    NodeNotLeader(Option<u64>),
    /// The proposed change would make no difference to the current config.
    Noop,
}

/// `Some(n)` or `None`, as an optional id is debug-printed.
pub open spec fn optional_id_text(id: Option<u64>) -> Seq<char> {
    match id {
        Some(n) => "Some("@ + decimal(n as nat) + ")"@,
        None => "None"@,
    }
}

/// The message of a Raft protocol error.
pub open spec fn raft_protocol_error_text(e: RaftProtocolError) -> Seq<char> {
    match e {
        RaftProtocolError::ClientError(d) => "An error related to the processing of the config change request:"@
            + d@,
        RaftProtocolError::InoperableConfig => "The given config would leave the cluster in an inoperable state."@,
        RaftProtocolError::Internal => "An internal error has taken place."@,
        RaftProtocolError::NodeNotLeader(id) => "The node the config change proposal was sent to was not the leader of the cluster - leader:"@
            + optional_id_text(id),
        RaftProtocolError::Noop => "The proposed config changes would make no difference to the current config."@,
    }
}

/// Renders an optional id as it is debug-printed.
pub fn optional_id_string(id: Option<u64>) -> (r: String)
    ensures
        r@ == optional_id_text(id),
{
    match id {
        Some(n) => {
            let mut s = "Some(".to_owned();
            let d = decimal_string(n);
            s.append(d.as_str());
            s.append(")");
            s
        },
        None => "None".to_owned(),
    }
}

impl RaftProtocolError {
    /// The HTTP status of the error: a temporary redirect when the node is not the leader,
    /// an internal server error otherwise.
    pub fn status_code(&self) -> (r: u16)
        ensures
            r == (if self is NodeNotLeader {
                307u16
            } else {
                500u16
            }),
    {
        match self {
            RaftProtocolError::NodeNotLeader(_) => 307,
            _ => 500,
        }
    }

    /// The message of the error.
    pub fn message(&self) -> (r: String)
        ensures
            r@ == raft_protocol_error_text(*self),
    {
        match self {
            RaftProtocolError::ClientError(d) => {
                let mut s = "An error related to the processing of the config change request:".to_owned();
                s.append(d.as_str());
                s
            },
            RaftProtocolError::InoperableConfig => "The given config would leave the cluster in an inoperable state.".to_owned(),
            RaftProtocolError::Internal => "An internal error has taken place.".to_owned(),
            RaftProtocolError::NodeNotLeader(id) => {
                let mut s = "The node the config change proposal was sent to was not the leader of the cluster - leader:".to_owned();
                let t = optional_id_string(*id);
                s.append(t.as_str());
                s
            },
            RaftProtocolError::Noop => "The proposed config changes would make no difference to the current config.".to_owned(),
        }
    }
}

/// A node reports a change of its connection status to the network.
#[derive(Debug, Clone, Copy, PartialEq, Eq, Structural)]
pub struct HandleNodeStatusChange {
    pub id: u64,
    pub status: NodeStatus,
}

/// A request to connect node `id`, described by `info`, to the network.
#[derive(Debug)]
pub struct ConnectNode {
    pub id: u64,
    pub info: NodeInfo,
}

/// A request to disconnect a node from the network.
#[derive(Debug, Clone, Copy, PartialEq, Eq, Structural)]
pub struct DisconnectNode(pub u64);

/// The acknowledgement of a request.
#[derive(Debug, Clone, Copy, PartialEq, Eq, Structural)]
pub struct Acknowledged;

impl Acknowledged {
    /// Every accepted result is an acknowledgement.
    pub fn from_result(that: entities::ResponseResult) -> (r: Acknowledged)
        ensures
            r == Acknowledged,
    {
        match that {
            entities::ResponseResult::ConnectionAcknowledged { node_id: _ } => Acknowledged,
            entities::ResponseResult::Acknowledged => Acknowledged,
        }
    }
}

/// A node joins or leaves the cluster.
#[derive(Debug, Clone, Copy, PartialEq, Eq, Structural)]
pub enum MembershipAction {
    Joining,
    Leaving,
}

/// A change of the cluster's membership.
#[derive(Debug, Clone, Copy, PartialEq, Eq, Structural)]
pub struct ClusterMembershipChange {
    pub node_id: Option<u64>,
    pub action: MembershipAction,
}

/// A change of the cluster configuration: members to add and members to remove.
#[derive(Debug)]
pub struct ChangeClusterConfig {
    pub add_members: Vec<u64>,
    pub remove_members: Vec<u64>,
}

impl ChangeClusterConfig {
    /// A change adding `to_add` and removing `to_remove`.
    pub fn new_to_add_remove(to_add: Vec<u64>, to_remove: Vec<u64>) -> (r: ChangeClusterConfig)
        ensures
            r.add_members@ == to_add@,
            r.remove_members@ == to_remove@,
    {
        ChangeClusterConfig { add_members: to_add, remove_members: to_remove }
    }

    /// A change adding `to_add` and removing nothing.
    pub fn new_to_add(to_add: Vec<u64>) -> (r: ChangeClusterConfig)
        ensures
            r.add_members@ == to_add@,
            r.remove_members@ == Seq::<u64>::empty(),
    {
        ChangeClusterConfig::new_to_add_remove(to_add, Vec::new())
    }

    /// A change removing `to_remove` and adding nothing.
    pub fn new_to_remove(to_remove: Vec<u64>) -> (r: ChangeClusterConfig)
        ensures
            r.add_members@ == Seq::<u64>::empty(),
            r.remove_members@ == to_remove@,
    {
        ChangeClusterConfig::new_to_add_remove(Vec::new(), to_remove)
    }
}

} // verus!
