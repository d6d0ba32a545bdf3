//! How a node is reached: in this process through the local Raft actor, or over HTTP.
use vstd::prelude::*;
use vstd::string::StringExecFns;
use crate::NodeInfo;
use crate::ports::http::entities::{self, raft_protocol_command_response::Response};
use crate::text::{decimal, decimal_string};
use super::messages::Acknowledged;
use super::node::NodeError;

verus! {

/// The node hosted by this process; its Raft actor is held by the host.
#[derive(Debug, Clone, Copy, PartialEq, Eq, Structural)]
pub struct LocalNode {
    pub id: u64,
}

impl LocalNode {
    /// The local node `id`.
    pub fn new(id: u64) -> (r: LocalNode)
        ensures
            r.id == id,
    {
        LocalNode { id }
    }

    /// `LocalNode#<id>`, as the node is displayed.
    pub fn describe(&self) -> (r: String)
        ensures
            r@ == "LocalNode#"@ + decimal(self.id as nat),
    {
        let mut s = "LocalNode#".to_owned();
        let d = decimal_string(self.id);
        s.append(d.as_str());
        s
    }

    /// Connecting to the local node needs no exchange: it is acknowledged at once.
    pub fn connect(&self, local_id: u64, local_info: &NodeInfo) -> (r: Result<Acknowledged, NodeError>)
        ensures
            r == Ok::<Acknowledged, NodeError>(Acknowledged),
    {
        Ok(Acknowledged)
    }

    /// Disconnecting from the local node needs no exchange and always succeeds.
    pub fn disconnect(&self) -> (r: Result<(), NodeError>)
        ensures
            r is Ok,
    {
        Ok(())
    }
}

/// A node of another process, reached over HTTP at its cluster address.
#[derive(Debug)]
pub struct RemoteNode {
    pub remote_id: u64,
    pub remote_info: NodeInfo,
}

/// What a failed HTTP request reports of itself.
#[derive(Debug)]
pub struct RequestFailure {
    pub is_timeout: bool,
    pub is_serialization: bool,
    pub is_client_error: bool,
    pub is_http: bool,
    pub is_server_error: bool,
    pub is_redirect: bool,
    /// The request error's message.
    pub message: String,
    /// The request error's debug rendering.
    pub details: String,
}

/// The Raft RPCs sent to a remote node.
#[derive(Debug, Clone, Copy, PartialEq, Eq, Structural)]
pub enum RaftRpc {
    AppendEntries,
    InstallSnapshot,
    Vote,
}

/// The path of a Raft RPC under the cluster scope.
pub open spec fn raft_rpc_path(rpc: RaftRpc) -> Seq<char> {
    match rpc {
        RaftRpc::AppendEntries => "entries"@,
        RaftRpc::InstallSnapshot => "snapshots"@,
        RaftRpc::Vote => "vote"@,
    }
}

/// The base URL of the cluster API at an address.
pub open spec fn scope_of(address: Seq<char>) -> Seq<char> {
    "http://"@ + address + "/api/cluster"@
}

/// The error of an answer that carries no response.
pub open spec fn empty_response_text() -> Seq<char> {
    "good ChangeClusterResponse had empty response"@
}

/// The error of an answer to a command, or `None` where the answer accepts it.
pub open spec fn answer_error(resp: Option<Response>) -> Option<NodeError> {
    match resp {
        Some(Response::Result(_)) => None,
        Some(Response::Failure(f)) => Some(NodeError::ResponseFailure(f.description)),
        Some(Response::CommandRejectedNotLeader(l)) => Some(
            NodeError::RemoteNotLeaderError {
                leader_id: match l.leader_id {
                    Some(n) => Some(n.id),
                    None => None,
                },
            },
        ),
        None => None,
    }
}

/// A node that rejects a command because it is not the leader names the leader it knows of,
/// and the node that sent the command reads back that same leader; an accepted result reads
/// back as no error.
pub proof fn law_answers_round_trip(leader: Option<u64>, result: entities::ResponseResult)
    ensures
        answer_error(
            Some(
                Response::CommandRejectedNotLeader(
                    entities::CommandRejectedNotLeader {
                        leader_id: match leader {
                            Some(i) => Some(entities::NodeId { id: i }),
                            None => None,
                        },
                    },
                ),
            ),
        ) == Some(NodeError::RemoteNotLeaderError { leader_id: leader }),
        answer_error(Some(Response::Result(result))) is None,
{
}

impl RemoteNode {
    /// The remote node `remote_id` described by `remote_info`.
    pub fn new(remote_id: u64, remote_info: NodeInfo) -> (r: RemoteNode)
        ensures
            r.remote_id == remote_id,
            r.remote_info == remote_info,
    {
        RemoteNode { remote_id, remote_info }
    }

    /// `http://<cluster address>/api/cluster`: where the node's cluster API is.
    pub fn scope(&self) -> (r: String)
        ensures
            r@ == scope_of(self.remote_info.cluster_address@),
    {
        let mut s = "http://".to_owned();
        s.append(self.remote_info.cluster_address.as_str());
        s.append("/api/cluster");
        s
    }

    /// `RemoteNode#<id>(to:<scope>)`, as the node is displayed.
    pub fn describe(&self) -> (r: String)
        ensures
            r@ == "RemoteNode#"@ + decimal(self.remote_id as nat) + "(to:"@ + scope_of(
                self.remote_info.cluster_address@,
            ) + ")"@,
    {
        let mut s = "RemoteNode#".to_owned();
        let d = decimal_string(self.remote_id);
        s.append(d.as_str());
        s.append("(to:");
        let scope = self.scope();
        s.append(scope.as_str());
        s.append(")");
        s
    }

    /// The route and the command that propose a change of the cluster configuration to the
    /// remote node: the members to add and to remove, posted to `<scope>/admin`.
    pub fn change_cluster_command(&self, add_members: &Vec<u64>, remove_members: &Vec<u64>) -> (r: (
        String,
        entities::RaftProtocolCommand,
    ))
        ensures
            r.0@ == scope_of(self.remote_info.cluster_address@) + "/admin"@,
            r.1 matches entities::RaftProtocolCommand::ProposeConfigChange { add_members: a, remove_members: m }
                && a@ == add_members@.map_values(|id: u64| entities::wire_id(id)) && m@
                == remove_members@.map_values(|id: u64| entities::wire_id(id)),
    {
        let command = entities::RaftProtocolCommand::ProposeConfigChange {
            add_members: entities::NodeId::vec_from_raft(add_members),
            remove_members: entities::NodeId::vec_from_raft(remove_members),
        };
        let mut route = self.scope();
        route.append("/admin");
        (route, command)
    }

    /// What the remote node's answer to a command means: accepted, or the failure it reports,
    /// or the leader it names, or an empty answer.
    pub fn interpret_command_response(&self, resp: entities::RaftProtocolResponse) -> (r: Result<
        (),
        NodeError,
    >)
        ensures
            resp.response is None ==> (r matches Err(NodeError::Unknown(m)) && m@
                == empty_response_text()),
            resp.response is Some ==> match answer_error(resp.response) {
                None => r is Ok,
                Some(e) => r == Err::<(), NodeError>(e),
            },
    {
        match resp.response {
            Some(response) => match response {
                Response::Result(_) => Ok(()),
                Response::Failure(f) => Err(NodeError::ResponseFailure(f.description)),
                Response::CommandRejectedNotLeader(leader) => {
                    let leader_id = match leader.leader_id {
                        Some(n) => Some(n.id),
                        None => None,
                    };
                    Err(NodeError::RemoteNotLeaderError { leader_id })
                },
            },
            None => Err(NodeError::Unknown("good ChangeClusterResponse had empty response".to_owned())),
        }
    }

    /// The route and the body that register the local node with the remote node: the local
    /// id and info, posted to `<scope>/nodes/<remote id>`.
    pub fn connect_request(&self, local_id: u64, local_info: &NodeInfo) -> (r: (
        String,
        entities::NodeInfoMessage,
    ))
        ensures
            r.0@ == scope_of(self.remote_info.cluster_address@) + "/nodes/"@ + decimal(
                self.remote_id as nat,
            ),
            r.1.node_id == Some(entities::NodeId { id: local_id }),
            r.1.node_info matches Some(i) && i.name == local_info.name && i.cluster_address
                == local_info.cluster_address && i.app_address == local_info.app_address
                && i.public_address == local_info.public_address,
    {
        let mut route = self.scope();
        route.append("/nodes/");
        let d = decimal_string(self.remote_id);
        route.append(d.as_str());
        let body = entities::NodeInfoMessage {
            node_id: Some(entities::NodeId { id: local_id }),
            node_info: Some(entities::NodeInfo::from_info(local_info.duplicate())),
        };
        (route, body)
    }

    /// What the remote node's answer to a registration means: acknowledged, or the failure
    /// it reports, or the leader it names, or an empty answer.
    pub fn interpret_connect_response(&self, resp: entities::RaftProtocolResponse) -> (r: Result<
        Acknowledged,
        NodeError,
    >)
        ensures
            resp.response is None ==> (r matches Err(NodeError::Unknown(m)) && m@
                == empty_response_text()),
            resp.response is Some ==> match answer_error(resp.response) {
                None => r == Ok::<Acknowledged, NodeError>(Acknowledged),
                Some(e) => r == Err::<Acknowledged, NodeError>(e),
            },
    {
        match resp.response {
            Some(response) => match response {
                Response::Result(res) => Ok(Acknowledged::from_result(res)),
                Response::Failure(f) => Err(NodeError::ResponseFailure(f.description)),
                Response::CommandRejectedNotLeader(leader) => {
                    let leader_id = match leader.leader_id {
                        Some(n) => Some(n.id),
                        None => None,
                    };
                    Err(NodeError::RemoteNotLeaderError { leader_id })
                },
            },
            None => Err(NodeError::Unknown("good ChangeClusterResponse had empty response".to_owned())),
        }
    }

    /// The node error of a failed request, by the first of its kinds that holds: a timeout,
    /// a failure to read the answer, a client or HTTP error, a server error, a redirect, or
    /// any other request error.
    pub fn convert_error(&self, failure: RequestFailure) -> (r: NodeError)
        ensures
            failure.is_timeout ==> r == NodeError::Timeout(failure.message),
            !failure.is_timeout && failure.is_serialization ==> r == NodeError::ResponseFailure(
                failure.message,
            ),
            !failure.is_timeout && !failure.is_serialization && (failure.is_client_error
                || failure.is_http) ==> r == NodeError::RequestError(failure.message),
            !failure.is_timeout && !failure.is_serialization && !failure.is_client_error
                && !failure.is_http && failure.is_server_error ==> (r matches NodeError::ResponseFailure(m)
                && m@ == "Error in "@ + "RemoteNode#"@ + decimal(self.remote_id as nat) + "(to:"@
                + scope_of(self.remote_info.cluster_address@) + ")"@ + " server"@),
            !failure.is_timeout && !failure.is_serialization && !failure.is_client_error
                && !failure.is_http && !failure.is_server_error && failure.is_redirect
                ==> (r matches NodeError::Unknown(m) && m@
                == "TODO: PROPERLY HANDLE REDIRECT; E.G., IF REMOTE IS NOT LEADER: "@
                + failure.details@),
            !failure.is_timeout && !failure.is_serialization && !failure.is_client_error
                && !failure.is_http && !failure.is_server_error && !failure.is_redirect ==> r
                == NodeError::RequestError(failure.message),
    {
        if failure.is_timeout {
            NodeError::Timeout(failure.message)
        } else if failure.is_serialization {
            NodeError::ResponseFailure(failure.message)
        } else if failure.is_client_error || failure.is_http {
            NodeError::RequestError(failure.message)
        } else if failure.is_server_error {
            let mut m = "Error in ".to_owned();
            let d = self.describe();
            m.append(d.as_str());
            m.append(" server");
            NodeError::ResponseFailure(m)
        } else if failure.is_redirect {
            let mut m = "TODO: PROPERLY HANDLE REDIRECT; E.G., IF REMOTE IS NOT LEADER: ".to_owned();
            m.append(failure.details.as_str());
            NodeError::Unknown(m)
        } else {
            NodeError::RequestError(failure.message)
        }
    }

    /// The route of a Raft RPC: `<scope>/entries`, `<scope>/snapshots` or `<scope>/vote`.
    pub fn raft_route(&self, rpc: RaftRpc) -> (r: String)
        ensures
            r@ == scope_of(self.remote_info.cluster_address@) + "/"@ + raft_rpc_path(rpc),
    {
        let mut route = self.scope();
        route.append("/");
        match rpc {
            RaftRpc::AppendEntries => route.append("entries"),
            RaftRpc::InstallSnapshot => route.append("snapshots"),
            RaftRpc::Vote => route.append("vote"),
        }
        route
    }

    /// Whether a failed Raft RPC must stop the process: a failure to read the answer that is
    /// not a timeout.
    pub fn raft_failure_is_fatal(&self, failure: &RequestFailure) -> (r: bool)
        ensures
            r == (!failure.is_timeout && failure.is_serialization),
    {
        !failure.is_timeout && failure.is_serialization
    }

    /// Disconnecting from a remote node needs no exchange and always succeeds.
    pub fn disconnect(&self) -> (r: Result<(), NodeError>)
        ensures
            r is Ok,
    {
        Ok(())
    }
}

} // verus!
