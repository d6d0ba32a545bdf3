//! The answer to a command of the Raft protocol.
use vstd::prelude::*;
use crate::network::messages::{RaftProtocolError, raft_protocol_error_text};
use super::{CommandRejectedNotLeader, Failure, NodeId, ResponseResult};

verus! {

/// The answer to a command of the Raft protocol.
#[derive(Debug)]
pub enum Response {
    Result(ResponseResult),
    Failure(Failure),
    CommandRejectedNotLeader(CommandRejectedNotLeader),
}

impl Response {
    /// The answer that reports a Raft protocol error: a rejection naming the leader when the
    /// node was not the leader, the error's description otherwise.
    pub fn from_error(error: RaftProtocolError) -> (r: Response)
        ensures
            match error {
                RaftProtocolError::NodeNotLeader(id) => r matches Response::CommandRejectedNotLeader(c)
                    && c.leader_id == match id {
                    Some(i) => Some(NodeId { id: i }),
                    None => None::<NodeId>,
                },
                RaftProtocolError::ClientError(d) => r matches Response::Failure(f) && f.description
                    == d,
                _ => r matches Response::Failure(f) && f.description@ == raft_protocol_error_text(
                    error,
                ),
            },
    {
        match error {
            RaftProtocolError::NodeNotLeader(id) => {
                let leader_id = match id {
                    Some(i) => Some(NodeId { id: i }),
                    None => None,
                };
                Response::CommandRejectedNotLeader(CommandRejectedNotLeader { leader_id })
            },
            RaftProtocolError::ClientError(description) => Response::Failure(Failure { description }),
            err => {
                let description = err.message();
                Response::Failure(Failure { description })
            },
        }
    }
}

} // verus!
