//! A node of the cluster as the local network sees it, and its connection life cycle.
use vstd::prelude::*;
use crate::NodeInfo;
use crate::ports::http::entities;
use super::messages::{Acknowledged, ChangeClusterConfig, HandleNodeStatusChange, NetworkError};
pub use super::proximity::{LocalNode, RemoteNode};

verus! {

/// Errors of a node.
#[derive(Debug)]
pub enum NodeError {
    /// The cluster could not be changed.
    ChangeClusterError { to_add: Vec<u64>, to_remove: Vec<u64> },
    /// A request to a remote node could not be sent.
    RemoteNodeSendError(String),
    /// An HTTP request to a remote node failed.
    RequestError(String),
    /// The answer of a remote node could not be parsed.
    ResponseParseError(String),
    /// A remote node reported a failure.
    ResponseFailure(String),
    /// A request to a node timed out.
    Timeout(String),
    /// A payload could not be read.
    PayloadError(String),
    /// The remote node is not the leader; the leader it names, if any.
    RemoteNotLeaderError { leader_id: Option<u64> },
    /// Any other node error.
    Unknown(String),
}

/// The registry entry of a node: its id, its info once known, and whether the host has
/// started the actor that stands for it.
#[derive(Debug)]
pub struct NodeRef {
    pub id: u64,
    pub info: Option<NodeInfo>,
    pub started: bool,
}

impl NodeRef {
    /// A copy of this entry.
    pub fn duplicate(&self) -> (r: NodeRef)
        ensures
            r == *self,
    {
        NodeRef {
            id: self.id,
            info: match &self.info {
                Some(i) => Some(i.duplicate()),
                None => None,
            },
            started: self.started,
        }
    }
}

/// The connection status of a node.
#[derive(Debug, Clone, Copy, PartialEq, Eq, Structural)]
pub enum NodeStatus {
    Initialized,
    WeaklyConnected,
    Connected,
    /// A failed connection, with the number of attempts so far.
    Failure(i8),
    Disconnected,
}

impl NodeStatus {
    /// Whether the status counts as connected: connected or weakly connected.
    pub open spec fn spec_is_connected(self) -> bool {
        self is Connected || self is WeaklyConnected
    }

    /// Whether the node is connected or weakly connected.
    pub fn is_connected(&self) -> (r: bool)
        ensures
            r == self.spec_is_connected(),
    {
        match self {
            NodeStatus::Connected => true,
            NodeStatus::WeaklyConnected => true,
            _ => false,
        }
    }

    /// Whether the node is neither connected nor weakly connected.
    pub fn is_disconnected(&self) -> (r: bool)
        ensures
            r == !self.spec_is_connected(),
    {
        !self.is_connected()
    }
}

/// How a node is reached.
#[derive(Debug)]
pub enum Proximity {
    Local(LocalNode),
    Remote(RemoteNode),
}

impl Proximity {
    /// Disconnecting needs no exchange with either kind of node and always succeeds.
    pub fn disconnect(&self) -> (r: Result<(), NodeError>)
        ensures
            r is Ok,
    {
        match self {
            Proximity::Local(l) => l.disconnect(),
            Proximity::Remote(n) => n.disconnect(),
        }
    }
}

/// The status a node reports for a change to `status`: a failure after more than three
/// attempts is reported as a disconnection.
pub open spec fn reported_status(status: NodeStatus) -> NodeStatus {
    match status {
        NodeStatus::Failure(attempts) => if 3 < attempts {
            NodeStatus::Disconnected
        } else {
            status
        },
        _ => status,
    }
}

/// The status after one more failed attempt from `status`.
pub open spec fn next_failure(status: NodeStatus) -> NodeStatus {
    match status {
        NodeStatus::Failure(attempts) => NodeStatus::Failure((attempts + 1) as i8),
        _ => NodeStatus::Failure(1),
    }
}

/// The request to disconnect a node.
#[derive(Debug, Clone, Copy, PartialEq, Eq, Structural)]
pub struct Disconnect;

/// The request to reach node `node_id` through a new proximity.
#[derive(Debug)]
pub struct UpdateProximity {
    pub node_id: u64,
    pub proximity: Proximity,
}

impl UpdateProximity {
    /// The request to reach node `node_id` through `proximity`.
    pub fn new(node_id: u64, proximity: Proximity) -> (r: UpdateProximity)
        ensures
            r.node_id == node_id,
            r.proximity == proximity,
    {
        UpdateProximity { node_id, proximity }
    }
}

/// A failed attempt counts one more attempt than the status it fails from: one after a status
/// that is not a failure, one more after a failure. From the third failure on, the next failed
/// attempt is reported as a disconnection.
pub proof fn law_failed_attempt_counts(status: NodeStatus)
    requires
        status matches NodeStatus::Failure(a) ==> a < 127,
    ensures
        !(status is Failure) ==> next_failure(status) == NodeStatus::Failure(1),
        status matches NodeStatus::Failure(a) ==> (next_failure(status) matches NodeStatus::Failure(b)
            && b == a + 1),
        status matches NodeStatus::Failure(a) ==> (3 <= a ==> reported_status(next_failure(status))
            == NodeStatus::Disconnected),
        status matches NodeStatus::Failure(a) ==> (a < 3 ==> reported_status(next_failure(status))
            == next_failure(status)),
{
}

/// A node never reports going back to `Initialized`.
pub proof fn law_reports_never_initialized(status: NodeStatus)
    requires
        !(status is Initialized),
    ensures
        !(reported_status(status) is Initialized),
{
}

/// A failure is reported as such up to the third attempt, and as a disconnection from the
/// fourth on; every other status is reported as it is.
pub proof fn law_failure_report_threshold(status: NodeStatus)
    ensures
        status matches NodeStatus::Failure(a) ==> (reported_status(status) == if 3 < a {
            NodeStatus::Disconnected
        } else {
            status
        }),
        !(status is Failure) ==> reported_status(status) == status,
{
}

/// What connecting a node takes.
#[derive(Debug)]
pub enum ConnectPlan {
    /// The node is connected already.
    AlreadyConnected,
    /// The node is local: it is acknowledged at once.
    Immediate(Result<Acknowledged, NodeError>),
    /// The node is remote: post `body` to `route` and hand the answer back.
    Remote { route: String, body: entities::NodeInfoMessage },
}

/// What a connection attempt leads to: the status change to report to the network, the
/// outcome, and, after a failure, the seconds to wait before trying again.
#[derive(Debug)]
pub struct ConnectOutcome {
    pub report: HandleNodeStatusChange,
    pub result: Result<Acknowledged, NodeError>,
    pub retry_after_secs: Option<u64>,
}

/// How a change of the cluster configuration reaches the leader.
#[derive(Debug)]
pub enum ClusterChangeRequest {
    /// Propose the change to the local Raft actor.
    Local { add_members: Vec<u64>, remove_members: Vec<u64> },
    /// Post `command` to `route` on the remote node.
    Remote { route: String, command: entities::RaftProtocolCommand },
}

/// A node of the cluster as the local network sees it.
#[derive(Debug)]
pub struct Node {
    /// The id of the node, remote or local.
    pub id: u64,
    /// The id of the node hosting this process.
    pub local_id: u64,
    /// How the node is reached.
    pub proximity: Proximity,
    /// The node's connection status.
    pub status: NodeStatus,
    /// The info of the node hosting this process.
    pub local_info: NodeInfo,
}

impl Node {
    /// A node `id` seen from the local node `local_id`, reached through `proximity`, not yet
    /// connected.
    pub fn new(id: u64, info: NodeInfo, local_id: u64, local_info: NodeInfo, proximity: Proximity) -> (r:
        Node)
        ensures
            r.id == id,
            r.local_id == local_id,
            r.local_info == local_info,
            r.proximity == proximity,
            r.status == NodeStatus::Initialized,
    {
        Node { id, local_id, proximity, status: NodeStatus::Initialized, local_info }
    }

    /// The report to the network of a change of this node's status to `status`; a failure
    /// after more than three attempts is reported as a disconnection. A node never goes back
    /// to `Initialized`.
    pub fn apply_status_change(&self, status: NodeStatus) -> (r: HandleNodeStatusChange)
        requires
            !(status is Initialized),
        ensures
            r == (HandleNodeStatusChange { id: self.id, status: reported_status(status) }),
    {
        let new_status = match status {
            NodeStatus::Failure(attempts) => {
                if 3 < attempts {
                    NodeStatus::Disconnected
                } else {
                    status
                }
            },
            _ => status,
        };
        HandleNodeStatusChange { id: self.id, status: new_status }
    }

    /// What connecting this node takes: nothing once connected; a local node is
    /// acknowledged at once; a remote node is asked over HTTP.
    pub fn connect_plan(&self) -> (r: ConnectPlan)
        ensures
            self.status.spec_is_connected() ==> r is AlreadyConnected,
            !self.status.spec_is_connected() ==> match self.proximity {
                Proximity::Local(_) => r == ConnectPlan::Immediate(
                    Ok::<Acknowledged, NodeError>(Acknowledged),
                ),
                Proximity::Remote(n) => r matches ConnectPlan::Remote { route, body } && route@
                    == super::proximity::scope_of(n.remote_info.cluster_address@) + "/nodes/"@
                    + crate::text::decimal(n.remote_id as nat) && body.node_id == Some(
                    entities::NodeId { id: self.local_id },
                ) && (body.node_info matches Some(i) && i.name == self.local_info.name
                    && i.cluster_address == self.local_info.cluster_address && i.app_address
                    == self.local_info.app_address && i.public_address
                    == self.local_info.public_address),
            },
    {
        if self.status.is_connected() {
            ConnectPlan::AlreadyConnected
        } else {
            match &self.proximity {
                Proximity::Local(l) => ConnectPlan::Immediate(l.connect(self.local_id, &self.local_info)),
                Proximity::Remote(n) => {
                    let (route, body) = n.connect_request(self.local_id, &self.local_info);
                    ConnectPlan::Remote { route, body }
                },
            }
        }
    }

    /// What a connection attempt leads to. After a failure the node reports one more failed
    /// attempt (counted from its current status) and tries again after three seconds; after
    /// success it reports a weak connection.
    pub fn on_connect_attempt(&self, attempt: Result<Acknowledged, NodeError>) -> (r: ConnectOutcome)
        requires
            self.status matches NodeStatus::Failure(a) ==> a < 127,
        ensures
            attempt is Ok ==> r.report == (HandleNodeStatusChange {
                id: self.id,
                status: NodeStatus::WeaklyConnected,
            }) && r.retry_after_secs is None,
            attempt is Err ==> r.report == (HandleNodeStatusChange {
                id: self.id,
                status: reported_status(next_failure(self.status)),
            }) && r.retry_after_secs == Some(3u64),
            attempt is Err ==> r.report.id == self.id,
            attempt is Err && !(self.status is Failure) ==> r.report.status == NodeStatus::Failure(1),
            attempt is Err ==> (self.status matches NodeStatus::Failure(a) ==> (3 <= a ==> r.report.status
                == NodeStatus::Disconnected) && (a < 3 ==> (r.report.status matches NodeStatus::Failure(b)
                && b == a + 1))),
            r.result == attempt,
    {
        match attempt {
            Err(err) => {
                let new_status = match self.status {
                    NodeStatus::Failure(attempts) => NodeStatus::Failure(attempts + 1),
                    _ => NodeStatus::Failure(1),
                };
                let report = self.apply_status_change(new_status);
                ConnectOutcome { report, result: Err(err), retry_after_secs: Some(3) }
            },
            Ok(ack) => {
                let report = self.apply_status_change(NodeStatus::WeaklyConnected);
                ConnectOutcome { report, result: Ok(ack), retry_after_secs: None }
            },
        }
    }

    /// The report once a connection is acknowledged: the node is connected.
    pub fn handle_connect_result(&self, ack: Acknowledged) -> (r: HandleNodeStatusChange)
        ensures
            r == (HandleNodeStatusChange { id: self.id, status: NodeStatus::Connected }),
    {
        self.apply_status_change(NodeStatus::Connected)
    }

    /// Disconnects the node if it is connected, and returns the report of its disconnection;
    /// a node that is not connected is left alone.
    pub fn disconnect(&self) -> (r: Option<HandleNodeStatusChange>)
        requires
            self.status matches NodeStatus::Failure(a) ==> a < 127,
        ensures
            self.status.spec_is_connected() ==> r == Some(
                HandleNodeStatusChange { id: self.id, status: NodeStatus::Disconnected },
            ),
            !self.status.spec_is_connected() ==> r is None,
    {
        if self.status.is_connected() {
            match self.proximity.disconnect() {
                Ok(_) => Some(self.apply_status_change(NodeStatus::Disconnected)),
                Err(_) => {
                    let failure = match self.status {
                        NodeStatus::Failure(attempts) => NodeStatus::Failure(attempts + 1),
                        _ => NodeStatus::Failure(1),
                    };
                    Some(self.apply_status_change(failure))
                },
            }
        } else {
            None
        }
    }

    /// Replaces how the node is reached with the proximity the message carries.
    pub fn update_proximity(&mut self, msg: UpdateProximity)
        ensures
            final(self).proximity == msg.proximity,
            final(self).id == old(self).id,
            final(self).local_id == old(self).local_id,
            final(self).status == old(self).status,
            final(self).local_info == old(self).local_info,
    {
        self.proximity = msg.proximity;
    }

    /// How a change of the cluster configuration goes out through this node: proposed to the
    /// local Raft actor, or posted to the remote node's admin route.
    pub fn change_cluster_config(&self, msg: ChangeClusterConfig) -> (r: ClusterChangeRequest)
        ensures
            self.proximity is Local ==> (r matches ClusterChangeRequest::Local { add_members, remove_members }
                && add_members@ == msg.add_members@ && remove_members@ == msg.remove_members@),
            self.proximity is Remote ==> r is Remote,
            self.proximity matches Proximity::Remote(n) ==> (r matches ClusterChangeRequest::Remote { route, command }
                && route@ == super::proximity::scope_of(n.remote_info.cluster_address@) + "/admin"@
                && (command matches entities::RaftProtocolCommand::ProposeConfigChange { add_members: a, remove_members: m }
                && a@ == msg.add_members@.map_values(|id: u64| entities::wire_id(id)) && m@
                == msg.remove_members@.map_values(|id: u64| entities::wire_id(id)))),
    {
        match &self.proximity {
            Proximity::Local(_) => ClusterChangeRequest::Local {
                add_members: msg.add_members,
                remove_members: msg.remove_members,
            },
            Proximity::Remote(n) => {
                let (route, command) = n.change_cluster_command(&msg.add_members, &msg.remove_members);
                ClusterChangeRequest::Remote { route, command }
            },
        }
    }

    /// How joining node `node_id` to the cluster goes out through this node.
    pub fn join_node(&self, node_id: u64) -> (r: ClusterChangeRequest)
        ensures
            self.proximity is Local ==> (r matches ClusterChangeRequest::Local { add_members, remove_members }
                && add_members@ == seq![node_id] && remove_members@ == Seq::<u64>::empty()),
            self.proximity is Remote ==> r is Remote,
    {
        let mut to_add = Vec::new();
        to_add.push(node_id);
        self.change_cluster_config(ChangeClusterConfig::new_to_add_remove(to_add, Vec::new()))
    }
}

/// The network's view of a cluster change handled by a node: a node error becomes a network
/// error.
pub fn change_result(res: Result<(), NodeError>) -> (r: Result<(), NetworkError>)
    ensures
        match res {
            Ok(_) => r is Ok,
            Err(e) => r == Err::<(), NetworkError>(NetworkError::NodeError(e)),
        },
{
    match res {
        Ok(_) => Ok(()),
        Err(e) => Err(NetworkError::NodeError(e)),
    }
}

/// What a change of the cluster configuration through a node answers at once: a change
/// proposed to the local Raft node is accepted at once, whatever Raft answers later (that
/// answer is only logged); a change posted to a remote node waits for the remote answer.
pub fn immediate_change_result(request: &ClusterChangeRequest) -> (r: Option<Result<(), NodeError>>)
    ensures
        request is Local ==> r == Some(Ok::<(), NodeError>(())),
        request is Remote ==> r is None,
{
    match request {
        ClusterChangeRequest::Local { .. } => Some(Ok(())),
        ClusterChangeRequest::Remote { .. } => None,
    }
}

/// The change a node makes when asked to connect node `id`: add it to the cluster.
pub fn connect_node_change(id: u64) -> (r: ChangeClusterConfig)
    ensures
        r.add_members@ == seq![id],
        r.remove_members@ == Seq::<u64>::empty(),
{
    let mut to_add = Vec::new();
    to_add.push(id);
    ChangeClusterConfig::new_to_add(to_add)
}

/// The answer to a connect request once the cluster change is done: acknowledged, or the
/// change's error.
pub fn acknowledge_change(res: Result<(), NetworkError>) -> (r: Result<Acknowledged, NetworkError>)
    ensures
        match res {
            Ok(_) => r == Ok::<Acknowledged, NetworkError>(Acknowledged),
            Err(e) => r == Err::<Acknowledged, NetworkError>(e),
        },
{
    match res {
        Ok(_) => Ok(Acknowledged),
        Err(e) => Err(e),
    }
}

} // verus!
