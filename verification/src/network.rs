//! The local network of a cluster node: the registry of the nodes it knows, its membership
//! state, and the decisions it takes on the messages it receives.
use vstd::prelude::*;
use vstd::string::StringExecFns;
use vstd::std_specs::iter::IteratorSpec;
use std::collections::BTreeMap;
use crate::NodeInfo;
use crate::config::Configuration;
use crate::ring::NodeRing;
use crate::text::{decimal, decimal_string};
use state::{NetworkState, NetworkStateView};
use node::{NodeRef, Proximity, LocalNode, RemoteNode};
use messages::{Acknowledged, ConnectNode, HandleNodeStatusChange, NetworkError};
use node::NodeStatus;
use state::{RaftStateTarget, Status};
use summary::RaftState;
use crate::ring::{ring_get_node, ring_nodes};
use summary::{ClusterSummary, Metrics};

pub mod state;
pub mod node;
pub mod proximity;
pub mod messages;
pub mod summary;

verus! {

broadcast use {vstd::std_specs::btree::group_btree_axioms, vstd::laws_cmp::group_laws_cmp};

/// The local network of a cluster node.
pub struct Network {
    /// The id of the local node.
    pub id: u64,
    /// The info of the local node.
    pub info: NodeInfo,
    /// The membership state of the network.
    pub state: NetworkState,
    /// The address of the discovery host.
    pub discovery: String,
    /// The nodes the network knows, by id.
    pub nodes: BTreeMap<u64, NodeRef>,
    /// The ring that maps cluster addresses to nodes.
    pub ring: NodeRing,
    /// The Raft metrics last received.
    pub metrics: Option<Metrics>,
    /// Whether the local Raft actor has been registered with the network.
    pub raft_registered: bool,
}

/// What registering a node leads to.
#[derive(Debug)]
pub enum RegisterOutcome {
    /// The node is current and its actor started: nothing to do.
    Unchanged,
    /// Start the actor of node `node_id`, described by `info`, reached through `proximity`.
    StartNode { node_id: u64, info: NodeInfo, proximity: Proximity },
    /// The node is the local one and no Raft actor is registered yet: it cannot be started.
    ProximityUnavailable,
}

/// The first `i + 1` elements of `s` hold what the first `i` hold, and `s[i]`.
pub proof fn lemma_take_next_contains(s: Seq<u64>, i: int)
    requires
        0 <= i < s.len(),
    ensures
        forall|k: u64| #[trigger] s.take(i + 1).contains(k) <==> (s.take(i).contains(k) || k == s[i]),
{
    assert forall|k: u64| #[trigger] s.take(i + 1).contains(k) <==> (s.take(i).contains(k) || k == s[i]) by {
        if k == s[i] {
            assert(s.take(i + 1)[i] == k);
        }
        if s.take(i).contains(k) {
            let j = choose|j: int| 0 <= j < i && s.take(i)[j] == k;
            assert(s.take(i + 1)[j] == k);
        }
        let t = s.take(i + 1);
        if t.contains(k) {
            let j = choose|j: int| 0 <= j < t.len() && t[j] == k;
            if j < i {
                assert(s.take(i)[j] == k);
            }
        }
    }
}

/// The keys a `BTreeMap` hands out, in its order, increase.
proof fn lemma_increasing_keys(keys: Seq<&u64>)
    requires
        vstd::std_specs::btree::increasing_seq(keys),
    ensures
        forall|i: int, j: int| 0 <= i < j < keys.len() ==> *keys[i] < *keys[j],
{
    assert(vstd::laws_cmp::obeys_cmp::<u64>());
    assert(vstd::laws_cmp::obeys_cmp::<&u64>());
    vstd::std_specs::btree::axiom_increasing_seq_meaning::<&u64>(keys);
    assert forall|i: int, j: int| 0 <= i < j < keys.len() implies *keys[i] < *keys[j] by {
        assert(vstd::std_specs::cmp::OrdSpec::cmp_spec(&keys[i], &keys[j]) is Less);
    }
}

/// The entry of a node whose actor is started now or was before.
pub open spec fn entry_of(id: u64, info: NodeInfo, started: bool) -> NodeRef {
    NodeRef { id, info: Some(info), started }
}

/// The id a seed node is registered under: the id generated from its cluster address.
pub open spec fn seed_id(n: NodeInfo) -> u64 {
    crate::utils::spec_node_id(n.cluster_address@) as u64
}

/// The registry after the seed nodes of a configuration are added, each under the id
/// generated from its cluster address, not started; a later node replaces an earlier one of
/// the same id.
pub open spec fn configured(nodes: Map<u64, NodeRef>, seeds: Seq<NodeInfo>) -> Map<u64, NodeRef>
    decreases seeds.len(),
{
    if seeds.len() == 0 {
        nodes
    } else {
        let n = seeds.last();
        configured(nodes, seeds.drop_last()).insert(seed_id(n), entry_of(seed_id(n), n, false))
    }
}

impl Network {
    /// Every entry of the registry carries its own id, and the membership state is well
    /// formed.
    pub open spec fn wf(&self) -> bool {
        &&& self.state@.wf()
        &&& forall|k: u64| #[trigger] self.nodes@.contains_key(k) ==> self.nodes@[k].id == k
    }

    /// Whether the actor of node `node_id` can be started: a remote node always, the local
    /// node once the Raft actor is registered.
    pub open spec fn can_place(&self, node_id: u64) -> bool {
        node_id != self.id || self.raft_registered
    }

    /// Whether node `node_id` is registered with info equal to `info` and its actor started.
    pub open spec fn is_current(nodes: Map<u64, NodeRef>, node_id: u64, info: NodeInfo) -> bool {
        &&& nodes.contains_key(node_id)
        &&& nodes[node_id].started
        &&& nodes[node_id].info matches Some(i) && i.same_as(info)
    }

    /// The registry after registering node `node_id` with `info`.
    pub open spec fn registered_nodes(&self, nodes: Map<u64, NodeRef>, node_id: u64, info: NodeInfo) -> Map<
        u64,
        NodeRef,
    > {
        if Self::is_current(nodes, node_id, info) {
            nodes
        } else {
            nodes.insert(
                node_id,
                entry_of(
                    node_id,
                    info,
                    self.can_place(node_id) || (nodes.contains_key(node_id)
                        && nodes[node_id].started),
                ),
            )
        }
    }

    /// The proximity of node `node_id` described by `info`, seen from `local_id`.
    pub open spec fn spec_proximity(local_id: u64, node_id: u64, info: NodeInfo) -> Proximity {
        if node_id == local_id {
            Proximity::Local(LocalNode { id: local_id })
        } else {
            Proximity::Remote(RemoteNode { remote_id: node_id, remote_info: info })
        }
    }

    /// What registering node `node_id` with `info` leads to: nothing for a node that is
    /// current; starting its actor where it can be placed; otherwise the proximity is not
    /// available yet.
    pub open spec fn register_outcome(&self, node_id: u64, info: NodeInfo) -> RegisterOutcome {
        if Self::is_current(self.nodes@, node_id, info) {
            RegisterOutcome::Unchanged
        } else if self.can_place(node_id) {
            RegisterOutcome::StartNode {
                node_id,
                info,
                proximity: Self::spec_proximity(self.id, node_id, info),
            }
        } else {
            RegisterOutcome::ProximityUnavailable
        }
    }

    /// A network for the local node `id` described by `info`, whose registry holds the local
    /// node only, not started; its state is fresh, with no metrics and no Raft actor.
    pub fn new(id: u64, info: &NodeInfo, ring: NodeRing, discovery: String) -> (r: Network)
        ensures
            r.wf(),
            r.id == id,
            r.info == *info,
            r.discovery == discovery,
            r.ring == ring,
            r.nodes@ == map![id => entry_of(id, *info, false)],
            r.state@.status == state::Status::Joining,
            r.state@.log.len() == 1,
            r.state@.connected.is_empty(),
            r.state@.isolated.is_empty(),
            r.metrics is None,
            !r.raft_registered,
    {
        let mut nodes = BTreeMap::new();
        nodes.insert(id, NodeRef { id, info: Some(info.duplicate()), started: false });
        proof {
            assert(nodes@ =~= map![id => entry_of(id, *info, false)]);
        }
        Network {
            id,
            info: info.duplicate(),
            state: NetworkState::default(),
            discovery,
            nodes,
            ring,
            metrics: None,
            raft_registered: false,
        }
    }

    /// The network of the configuration's host, which must be one of its seed nodes: the
    /// host's id and info, an empty ring with the configured replicas, the configured
    /// discovery host, and a registry holding the host and the seed nodes, none started.
    pub fn for_configuration(c: &Configuration) -> (r: Network)
        requires
            exists|i: int|
                0 <= i < c.seed_nodes@.len() && (#[trigger] c.seed_nodes@[i]).name@ == c.host@,
        ensures
            r.wf(),
            r.info.name@ == c.host@,
            exists|i: int| 0 <= i < c.seed_nodes@.len() && c.seed_nodes@[i] == r.info,
            r.id == crate::utils::spec_node_id(r.info.cluster_address@),
            r.discovery == c.discovery_host,
            ring_nodes(r.ring).is_empty(),
            r.nodes@ == configured(map![r.id => entry_of(r.id, r.info, false)], c.seed_nodes@),
            r.state@.status == state::Status::Joining,
            r.state@.connected.is_empty(),
            r.state@.isolated.is_empty(),
            r.metrics is None,
            !r.raft_registered,
    {
        let ring = crate::ring::Ring::new(c.ring_replicas);
        let host_info = c.host_info();
        let host_id = host_info.node_id();
        let mut network = Network::new(host_id, &host_info, ring, c.discovery_host.clone());
        network.configure_with(c);
        network
    }

    /// A summary of the network: its id, state, info and metrics.
    pub fn summarize(&self) -> (r: ClusterSummary)
        ensures
            r.id == self.id,
            r.state@ == self.state@,
            r.info == self.info,
            r.metrics is Some <==> self.metrics is Some,
            r.metrics matches Some(m) ==> self.metrics matches Some(o) && m.id == o.id && m.state
                == o.state && m.current_term == o.current_term && m.last_log_index
                == o.last_log_index && m.last_applied == o.last_applied && m.current_leader
                == o.current_leader && m.membership_config.is_in_joint_consensus
                == o.membership_config.is_in_joint_consensus && m.membership_config.members@
                == o.membership_config.members@ && m.membership_config.non_voters@
                == o.membership_config.non_voters@ && m.membership_config.removing@
                == o.membership_config.removing@,
    {
        ClusterSummary {
            id: self.id,
            state: self.state.duplicate(),
            info: self.info.duplicate(),
            metrics: match &self.metrics {
                Some(m) => Some(m.duplicate()),
                None => None,
            },
        }
    }

    /// The network as it is displayed: `Network(id:<id> state:<status>:<extent>)`.
    pub fn describe(&self) -> (r: String)
        ensures
            r@ == "Network(id:"@ + decimal(self.id as nat) + " state:"@ + state::status_name(
                self.state@.status,
            ) + ":"@ + state::extent_name(self.state@.extent()) + ")"@,
    {
        let mut m = "Network(id:".to_owned();
        let d = decimal_string(self.id);
        m.append(d.as_str());
        m.append(" state:");
        let st = self.state.describe();
        m.append(st.as_str());
        m.append(")");
        m
    }

    /// Adds the seed nodes of the configuration to the registry, each under the id generated
    /// from its cluster address, not started.
    pub fn configure_with(&mut self, c: &Configuration)
        requires
            old(self).wf(),
        ensures
            final(self).wf(),
            final(self).nodes@ == configured(old(self).nodes@, c.seed_nodes@),
            final(self).id == old(self).id,
            final(self).discovery == old(self).discovery,
            final(self).ring == old(self).ring,
            final(self).metrics == old(self).metrics,
            final(self).info == old(self).info,
            final(self).state@ == old(self).state@,
            final(self).raft_registered == old(self).raft_registered,
    {
        let n = c.seed_nodes.len();
        for i in 0..n
            invariant
                n == c.seed_nodes@.len(),
                self.wf(),
                self.nodes@ == configured(old(self).nodes@, c.seed_nodes@.take(i as int)),
                self.id == old(self).id,
                self.discovery == old(self).discovery,
                self.ring == old(self).ring,
                self.metrics == old(self).metrics,
                self.info == old(self).info,
                self.state@ == old(self).state@,
                self.raft_registered == old(self).raft_registered,
        {
            let seed = c.seed_nodes[i].duplicate();
            let id = seed.node_id();
            proof {
                let t = c.seed_nodes@.take(i + 1);
                assert(t.drop_last() == c.seed_nodes@.take(i as int));
                assert(t.last() == c.seed_nodes@[i as int]);
            }
            self.nodes.insert(id, NodeRef { id, info: Some(seed), started: false });
        }
        assert(c.seed_nodes@.take(n as int) == c.seed_nodes@);
    }

    /// The id of node `id` when its actor is started, to reach it through.
    pub fn get_node(&self, id: u64) -> (r: Option<u64>)
        ensures
            r == (if self.nodes@.contains_key(id) && self.nodes@[id].started {
                Some(id)
            } else {
                None::<u64>
            }),
    {
        match self.nodes.get(&id) {
            Some(node_ref) => if node_ref.started {
                Some(id)
            } else {
                None
            },
            None => None,
        }
    }

    /// The current leader by the last metrics, if they name one.
    pub open spec fn spec_current_leader(&self) -> Option<u64> {
        match self.metrics {
            Some(m) => m.current_leader,
            None => None,
        }
    }

    /// Whether the metrics name this network's node as the leader.
    pub fn is_leader(&self) -> (r: bool)
        ensures
            r == (self.spec_current_leader() == Some(self.id)),
    {
        match &self.metrics {
            Some(m) => match m.current_leader {
                Some(leader_id) => self.id == leader_id,
                None => false,
            },
            None => false,
        }
    }

    /// The registry entry of the leader the metrics name, if there is one.
    pub fn leader_ref(&self) -> (r: Option<NodeRef>)
        ensures
            r == (match self.spec_current_leader() {
                Some(l) => if self.nodes@.contains_key(l) {
                    Some(self.nodes@[l])
                } else {
                    None::<NodeRef>
                },
                None => None::<NodeRef>,
            }),
    {
        match &self.metrics {
            Some(m) => match m.current_leader {
                Some(l) => match self.nodes.get(&l) {
                    Some(r) => Some(r.duplicate()),
                    None => None,
                },
                None => None,
            },
            None => None,
        }
    }

    /// Isolates node `id` in the network state.
    pub fn isolate_node(&mut self, id: u64)
        ensures
            final(self).state@ == old(self).state@.isolating(id),
            final(self).nodes@ == old(self).nodes@,
            final(self).id == old(self).id,
            final(self).info == old(self).info,
            final(self).raft_registered == old(self).raft_registered,
            final(self).metrics == old(self).metrics,
    {
        self.state.isolate_node(id);
    }

    /// Restores node `id` in the network state.
    pub fn restore_node(&mut self, id: u64)
        ensures
            final(self).state@ == old(self).state@.restoring(id),
            final(self).nodes@ == old(self).nodes@,
            final(self).id == old(self).id,
            final(self).info == old(self).info,
            final(self).raft_registered == old(self).raft_registered,
            final(self).metrics == old(self).metrics,
    {
        self.state.restore_node(id);
    }

    /// How node `node_id` is reached from `local_id`: the local node through the Raft actor,
    /// which must be registered, any other node remotely.
    pub fn determine_proximity(local_id: u64, node_id: u64, node_info: &NodeInfo, raft_registered: bool) -> (r:
        Result<Proximity, ()>)
        ensures
            node_id == local_id && !raft_registered ==> r is Err,
            !(node_id == local_id && !raft_registered) ==> r == Ok::<Proximity, ()>(
                Self::spec_proximity(local_id, node_id, *node_info),
            ),
    {
        if node_id == local_id {
            if raft_registered {
                Ok(Proximity::Local(LocalNode::new(local_id)))
            } else {
                Err(())
            }
        } else {
            Ok(Proximity::Remote(RemoteNode::new(node_id, node_info.duplicate())))
        }
    }

    /// Registers node `node_id` described by `node_info`, then restores it in the network
    /// state. A node that is current and started is left as it is; otherwise its info is
    /// set and its actor is to be started, unless it is the local node and no Raft actor is
    /// registered yet.
    pub fn register_node(&mut self, node_id: u64, node_info: NodeInfo) -> (r: RegisterOutcome)
        requires
            old(self).wf(),
        ensures
            final(self).wf(),
            final(self).nodes@ == old(self).registered_nodes(old(self).nodes@, node_id, node_info),
            final(self).state@ == old(self).state@.restoring(node_id),
            r == old(self).register_outcome(node_id, node_info),
            final(self).id == old(self).id,
            final(self).info == old(self).info,
            final(self).raft_registered == old(self).raft_registered,
            final(self).metrics == old(self).metrics,
    {
        let current = match self.nodes.get(&node_id) {
            Some(existing) => existing.started && match &existing.info {
                Some(info) => info.equals(&node_info),
                None => false,
            },
            None => false,
        };
        let was_started = match self.nodes.get(&node_id) {
            Some(existing) => existing.started,
            None => false,
        };
        let outcome = if current {
            RegisterOutcome::Unchanged
        } else {
            let proximity = Self::determine_proximity(self.id, node_id, &node_info, self.raft_registered);
            match proximity {
                Ok(p) => {
                    self.nodes.insert(
                        node_id,
                        NodeRef { id: node_id, info: Some(node_info.duplicate()), started: true },
                    );
                    RegisterOutcome::StartNode { node_id, info: node_info, proximity: p }
                },
                Err(_) => {
                    self.nodes.insert(
                        node_id,
                        NodeRef { id: node_id, info: Some(node_info), started: was_started },
                    );
                    RegisterOutcome::ProximityUnavailable
                },
            }
        };
        self.restore_node(node_id);
        outcome
    }

    /// Where a command for the leader goes: the local node when it is the leader and its
    /// actor is started; otherwise the error that says why not.
    pub fn leader_delegate(&self) -> (r: Result<u64, NetworkError>)
        requires
            self.wf(),
        ensures
            match self.spec_current_leader() {
                None => r == Err::<u64, NetworkError>(NetworkError::NoElectedLeader),
                Some(l) => if !self.nodes@.contains_key(l) {
                    r == Err::<u64, NetworkError>(NetworkError::NoElectedLeader)
                } else if l == self.id && self.nodes@[l].started {
                    r == Ok::<u64, NetworkError>(l)
                } else if l == self.id {
                    r matches Err(NetworkError::Unknown(m)) && m@ == "Local leader node is not started"@
                } else if self.nodes@[l].info is Some {
                    r == Err::<u64, NetworkError>(
                        NetworkError::NotLeader {
                            leader_id: Some(l),
                            leader_address: Some(self.nodes@[l].info->0.cluster_address),
                        },
                    )
                } else {
                    r matches Err(NetworkError::Unknown(m)) && m@ == "Leader#"@ + decimal(l as nat)
                        + " actor is not registered."@
                },
            },
    {
        match self.leader_ref() {
            Some(lref) => {
                if lref.id == self.id && lref.started {
                    Ok(lref.id)
                } else if self.id == lref.id {
                    Err(NetworkError::Unknown("Local leader node is not started".to_owned()))
                } else {
                    match lref.info {
                        Some(info) => Err(
                            NetworkError::NotLeader {
                                leader_id: Some(lref.id),
                                leader_address: Some(info.cluster_address),
                            },
                        ),
                        None => {
                            let mut m = "Leader#".to_owned();
                            let d = decimal_string(lref.id);
                            m.append(d.as_str());
                            m.append(" actor is not registered.");
                            Err(NetworkError::Unknown(m))
                        },
                    }
                }
            },
            None => Err(NetworkError::NoElectedLeader),
        }
    }

    /// Where a client request goes: the leader found by `leader_delegate`, or, when another
    /// node is the leader and its actor is started here, that node; otherwise the error.
    pub fn client_request_target(&self) -> (r: Result<u64, NetworkError>)
        requires
            self.wf(),
        ensures
            match self.spec_current_leader() {
                None => r == Err::<u64, NetworkError>(NetworkError::NoElectedLeader),
                Some(l) => if !self.nodes@.contains_key(l) {
                    r == Err::<u64, NetworkError>(NetworkError::NoElectedLeader)
                } else if self.nodes@[l].started && (l == self.id || self.nodes@[l].info is Some) {
                    r == Ok::<u64, NetworkError>(l)
                } else if l == self.id {
                    r matches Err(NetworkError::Unknown(m)) && m@ == "Local leader node is not started"@
                } else if self.nodes@[l].info is Some {
                    r == Err::<u64, NetworkError>(
                        NetworkError::NotLeader {
                            leader_id: Some(l),
                            leader_address: Some(self.nodes@[l].info->0.cluster_address),
                        },
                    )
                } else {
                    r matches Err(NetworkError::Unknown(m)) && m@ == "Leader#"@ + decimal(l as nat)
                        + " actor is not registered."@
                },
            },
    {
        let res = self.leader_delegate();
        match res {
            Ok(leader) => Ok(leader),
            Err(NetworkError::NotLeader { leader_id: Some(lid), leader_address }) => {
                match self.get_node(lid) {
                    Some(leader_node) => Ok(leader_node),
                    None => Err(NetworkError::NotLeader { leader_id: Some(lid), leader_address }),
                }
            },
            Err(e) => Err(e),
        }
    }

    /// Applies a status change reported by a node the registry holds: an initialized, weakly
    /// connected or disconnected node is isolated, a connected one restored, a failing one
    /// left as it is. Reports of unknown nodes are ignored.
    pub fn on_node_status_change(&mut self, msg: HandleNodeStatusChange)
        ensures
            !old(self).nodes@.contains_key(msg.id) ==> final(self).state@ == old(self).state@,
            old(self).nodes@.contains_key(msg.id) ==> final(self).state@ == match msg.status {
                NodeStatus::Initialized => old(self).state@.isolating(msg.id),
                NodeStatus::WeaklyConnected => old(self).state@.isolating(msg.id),
                NodeStatus::Connected => old(self).state@.restoring(msg.id),
                NodeStatus::Failure(_) => old(self).state@,
                NodeStatus::Disconnected => old(self).state@.isolating(msg.id),
            },
            final(self).nodes@ == old(self).nodes@,
            final(self).id == old(self).id,
            final(self).info == old(self).info,
            final(self).raft_registered == old(self).raft_registered,
            final(self).metrics == old(self).metrics,
    {
        if self.nodes.contains_key(&msg.id) {
            match msg.status {
                NodeStatus::Initialized => self.isolate_node(msg.id),
                NodeStatus::WeaklyConnected => self.isolate_node(msg.id),
                NodeStatus::Connected => self.restore_node(msg.id),
                NodeStatus::Failure(_) => {},
                NodeStatus::Disconnected => self.isolate_node(msg.id),
            }
        }
    }

    /// Registers the node a connect command names, unless the registry already holds it with
    /// the same info; returns what registering led to, if it was done.
    pub fn handle_connect_remote_node(&mut self, command: ConnectNode) -> (r: Option<RegisterOutcome>)
        requires
            old(self).wf(),
        ensures
            final(self).wf(),
            ({
                let same = old(self).nodes@.contains_key(command.id) && (old(self).nodes@[command.id].info matches Some(i)
                    && i.same_as(command.info));
                &&& same ==> r is None && final(self).nodes@ == old(self).nodes@ && final(self).state@
                    == old(self).state@
                &&& !same ==> r == Some(old(self).register_outcome(command.id, command.info))
                    && final(self).nodes@ == old(self).registered_nodes(
                    old(self).nodes@,
                    command.id,
                    command.info,
                ) && final(self).state@ == old(self).state@.restoring(command.id)
            }),
            final(self).id == old(self).id,
            final(self).info == old(self).info,
            final(self).raft_registered == old(self).raft_registered,
            final(self).metrics == old(self).metrics,
    {
        let same = match self.nodes.get(&command.id) {
            Some(existing) => match &existing.info {
                Some(current) => command.info.equals(current),
                None => false,
            },
            None => false,
        };
        if same {
            None
        } else {
            Some(self.register_node(command.id, command.info))
        }
    }

    /// Removes node `id` from the registry.
    pub fn disconnect_node(&mut self, id: u64) -> (r: Acknowledged)
        requires
            old(self).wf(),
        ensures
            final(self).wf(),
            final(self).nodes@ == old(self).nodes@.remove(id),
            final(self).state@ == old(self).state@,
            final(self).id == old(self).id,
            final(self).info == old(self).info,
            final(self).raft_registered == old(self).raft_registered,
            final(self).metrics == old(self).metrics,
    {
        self.nodes.remove(&id);
        Acknowledged
    }

    /// Takes in the Raft metrics: moves the network's status along with the Raft state, then
    /// keeps the metrics.
    pub fn on_raft_metrics(&mut self, metrics: Metrics)
        requires
            old(self).wf(),
            !(old(self).state@.status == Status::Down && metrics.state == RaftState::NonVoter),
        ensures
            final(self).wf(),
            final(self).metrics == Some(metrics),
            final(self).state@.status == match state::raft_status_target(
                old(self).state@.status,
                metrics.state,
                metrics.current_leader is Some,
            ) {
                Some(next) => next,
                None => old(self).state@.status,
            },
            state::raft_status_target(
                old(self).state@.status,
                metrics.state,
                metrics.current_leader is Some,
            ) matches Some(next) ==> final(self).state@.log.len() == old(self).state@.log.len() + 1
                && exists|now: i64| final(self).state@.log == old(self).state@.advanced_log(next, now),
            state::raft_status_target(
                old(self).state@.status,
                metrics.state,
                metrics.current_leader is Some,
            ) is None ==> final(self).state@
                == old(self).state@,
            final(self).state@.connected == old(self).state@.connected,
            final(self).state@.isolated == old(self).state@.isolated,
            final(self).nodes@ == old(self).nodes@,
            final(self).id == old(self).id,
            final(self).info == old(self).info,
            final(self).raft_registered == old(self).raft_registered,
    {
        self.advance_state_on_raft_status(&metrics);
        self.metrics = Some(metrics);
    }

    /// Moves the network's status along with the metrics of its Raft node: a joining or weakly
    /// up network is up once its Raft node votes in a cluster with a known leader; an up
    /// network whose Raft node stops voting is leaving. A move adds one entry to the timeline.
    /// A down network whose Raft node is a non-voter would go back to joining, which the
    /// status state machine refuses; that input is not taken.
    pub fn advance_state_on_raft_status(&mut self, metrics: &Metrics)
        requires
            old(self).wf(),
            !(old(self).state@.status == Status::Down && metrics.state == RaftState::NonVoter),
        ensures
            final(self).wf(),
            final(self).state@.status == match state::raft_status_target(
                old(self).state@.status,
                metrics.state,
                metrics.current_leader is Some,
            ) {
                Some(next) => next,
                None => old(self).state@.status,
            },
            state::raft_status_target(
                old(self).state@.status,
                metrics.state,
                metrics.current_leader is Some,
            ) matches Some(next) ==> final(self).state@.log.len() == old(self).state@.log.len() + 1
                && exists|now: i64| final(self).state@.log == old(self).state@.advanced_log(next, now),
            state::raft_status_target(
                old(self).state@.status,
                metrics.state,
                metrics.current_leader is Some,
            ) is None ==> final(self).state@
                == old(self).state@,
            final(self).state@.connected == old(self).state@.connected,
            final(self).state@.isolated == old(self).state@.isolated,
            final(self).nodes@ == old(self).nodes@,
            final(self).id == old(self).id,
            final(self).info == old(self).info,
            final(self).raft_registered == old(self).raft_registered,
            final(self).metrics == old(self).metrics,
    {
        let status = self.state.unwrap();
        let leader_known = metrics.current_leader.is_some();
        match state::raft_state_target(status, metrics.state, leader_known) {
            RaftStateTarget::Stay => {},
            RaftStateTarget::MoveTo(next) => {
                self.state.advance(next);
            },
        }
    }

    /// The ids the registry holds, each once.
    pub fn node_ids(&self) -> (r: Vec<u64>)
        ensures
            r@.to_set() == self.nodes@.dom(),
            r@.no_duplicates(),
            forall|i: int, j: int| 0 <= i < j < r@.len() ==> r@[i] < r@[j],
    {
        let mut r: Vec<u64> = Vec::new();
        let ghost keys = vstd::std_specs::btree::spec_keys_iter(&self.nodes).remaining();
        assert(keys.unref().to_set() == self.nodes@.dom());
        for k in it: self.nodes.keys()
            invariant
                it.seq() == keys,
                r@ == it.seq().take(it.index() as int).map_values(|x: &u64| *x),
        {
            assert(k == it.seq()[it.index()]);
            r.push(*k);
            assert(it.seq().take(it.index() + 1).map_values(|x: &u64| *x) =~= r@);
        }
        assert(keys.take(keys.len() as int) == keys);
        assert(r@ =~= keys.unref());
        proof {
            lemma_increasing_keys(keys);
        }
        r
    }

    /// Registers the Raft actor of this node with the network and says what it takes to
    /// hand it to the local node: a started local node gets a new proximity; a local node
    /// that is known but not started is registered; a local node without info waits.
    pub fn register_raft(&mut self) -> (r: RaftRegistration)
        requires
            old(self).wf(),
            old(self).nodes@.contains_key(old(self).id),
        ensures
            final(self).wf(),
            final(self).raft_registered,
            final(self).id == old(self).id,
            final(self).info == old(self).info,
            final(self).metrics == old(self).metrics,
            ({
                let local = old(self).nodes@[old(self).id];
                &&& (local.info is Some && local.started) ==> r == RaftRegistration::UpdateProximity(
                    Proximity::Local(LocalNode { id: old(self).id }),
                ) && final(self).nodes@ == old(self).nodes@ && final(self).state@ == old(
                    self,
                ).state@
                &&& (local.info is Some && !local.started) ==> r == RaftRegistration::Registered(
                    RegisterOutcome::StartNode {
                        node_id: old(self).id,
                        info: local.info->0,
                        proximity: Proximity::Local(LocalNode { id: old(self).id }),
                    },
                ) && final(self).nodes@ == old(self).nodes@.insert(
                    old(self).id,
                    entry_of(old(self).id, local.info->0, true),
                ) && final(self).state@ == old(self).state@.restoring(old(self).id)
                &&& local.info is None ==> r is InfoMissing && final(self).nodes@ == old(
                    self,
                ).nodes@ && final(self).state@ == old(self).state@
            }),
    {
        self.raft_registered = true;
        let local = match self.nodes.get(&self.id) {
            Some(local) => local.duplicate(),
            None => NodeRef { id: self.id, info: None, started: false },
        };
        match local.info {
            Some(info) => {
                if local.started {
                    match Self::determine_proximity(self.id, self.id, &info, true) {
                        Ok(p) => RaftRegistration::UpdateProximity(p),
                        Err(_) => RaftRegistration::InfoMissing,
                    }
                } else {
                    RaftRegistration::Registered(self.register_node(self.id, info))
                }
            },
            None => RaftRegistration::InfoMissing,
        }
    }
}

/// Registering a node that can be placed makes it current: registering it again with the
/// same info changes nothing.
pub proof fn law_register_then_current(net: Network, nodes: Map<u64, NodeRef>, node_id: u64, info: NodeInfo)
    requires
        net.can_place(node_id),
    ensures
        Network::is_current(net.registered_nodes(nodes, node_id, info), node_id, info),
        net.registered_nodes(net.registered_nodes(nodes, node_id, info), node_id, info)
            == net.registered_nodes(nodes, node_id, info),
{
}

/// Registering a node touches its own entry only, gives it the registered info, and keeps
/// every entry under its own id.
pub proof fn law_register_touches_one_entry(net: Network, nodes: Map<u64, NodeRef>, node_id: u64, info: NodeInfo)
    requires
        forall|k: u64| #[trigger] nodes.contains_key(k) ==> nodes[k].id == k,
    ensures
        net.registered_nodes(nodes, node_id, info).dom() == nodes.dom().insert(node_id),
        forall|k: u64| k != node_id && #[trigger] nodes.contains_key(k) ==> net.registered_nodes(
            nodes,
            node_id,
            info,
        )[k] == nodes[k],
        net.registered_nodes(nodes, node_id, info)[node_id].info matches Some(i) && i.same_as(info),
        forall|k: u64| #[trigger] net.registered_nodes(nodes, node_id, info).contains_key(k)
            ==> net.registered_nodes(nodes, node_id, info)[k].id == k,
{
    if Network::is_current(nodes, node_id, info) {
        assert(nodes.dom().insert(node_id) =~= nodes.dom());
    } else {
        assert(nodes.insert(node_id, entry_of(node_id, info, true)).dom() =~= nodes.dom().insert(node_id));
        assert(nodes.insert(node_id, entry_of(node_id, info, false)).dom() =~= nodes.dom().insert(node_id));
    }
}

/// Configuring adds exactly the seed nodes, each under the id of its cluster address and
/// not started, and keeps every other entry.
pub proof fn law_configured_adds_seeds(nodes: Map<u64, NodeRef>, seeds: Seq<NodeInfo>)
    ensures
        forall|i: int| 0 <= i < seeds.len() ==> configured(nodes, seeds).contains_key(
            seed_id(#[trigger] seeds[i]),
        ),
        forall|k: u64| #[trigger] configured(nodes, seeds).contains_key(k) ==> nodes.contains_key(k) || exists|i: int|
            0 <= i < seeds.len() && k == seed_id(seeds[i]),
        forall|k: u64| #[trigger] nodes.contains_key(k) && (forall|i: int| 0 <= i < seeds.len() ==> k
            != seed_id(#[trigger] seeds[i])) ==> configured(
            nodes,
            seeds,
        )[k] == nodes[k],
    decreases seeds.len(),
{
    if seeds.len() > 0 {
        let init = seeds.drop_last();
        law_configured_adds_seeds(nodes, init);
        assert forall|i: int| 0 <= i < seeds.len() implies configured(nodes, seeds).contains_key(
            seed_id(#[trigger] seeds[i]),
        ) by {
            if i < seeds.len() - 1 {
                assert(seeds[i] == init[i]);
            }
        }
        let last_id = seed_id(seeds.last());
        assert forall|k: u64| #[trigger] configured(nodes, seeds).contains_key(k) implies nodes.contains_key(k)
            || exists|i: int| 0 <= i < seeds.len() && k == seed_id(seeds[i]) by {
            if k == last_id {
                let w = seeds.len() - 1;
                assert(0 <= w < seeds.len() && k == seed_id(seeds[w]));
            } else if !nodes.contains_key(k) {
                assert(configured(nodes, init).contains_key(k));
                let i = choose|i: int| 0 <= i < init.len() && k == seed_id(init[i]);
                assert(init[i] == seeds[i]);
                assert(0 <= i < seeds.len() && k == seed_id(seeds[i]));
            }
        }
        assert forall|k: u64| #[trigger] nodes.contains_key(k) && (forall|i: int| 0 <= i < seeds.len() ==> k
            != seed_id(#[trigger] seeds[i])) implies configured(
            nodes,
            seeds,
        )[k] == nodes[k] by {
            assert forall|i: int| 0 <= i < init.len() implies k != seed_id(#[trigger] init[i]) by {
                assert(seeds[i] == init[i]);
            }
            assert(k != seed_id(seeds[seeds.len() - 1]));
        }
    }
}

/// Of the seed nodes sharing an id, the registry holds the last one, not started.
pub proof fn law_configured_last_seed_wins(nodes: Map<u64, NodeRef>, seeds: Seq<NodeInfo>, i: int)
    requires
        0 <= i < seeds.len(),
        forall|j: int| i < j < seeds.len() ==> seed_id(#[trigger] seeds[j]) != seed_id(seeds[i]),
    ensures
        configured(nodes, seeds)[seed_id(seeds[i])] == entry_of(seed_id(seeds[i]), seeds[i], false),
    decreases seeds.len(),
{
    let last = seeds.len() - 1;
    if i < last {
        let init = seeds.drop_last();
        assert(seeds[i] == init[i]);
        assert(seed_id(seeds[last]) != seed_id(seeds[i]));
        assert forall|j: int| i < j < init.len() implies seed_id(#[trigger] init[j]) != seed_id(init[i]) by {
            assert(init[j] == seeds[j]);
        }
        law_configured_last_seed_wins(nodes, init, i);
    }
}

/// Starting the network never stops a node, and starts every node with known info that can
/// be placed.
pub proof fn law_started_entries(net: Network, k: u64)
    requires
        net.nodes@.contains_key(k),
    ensures
        net.nodes@[k].started ==> net.started_entry(k).started,
        net.nodes@[k].info is Some && net.can_place(k) ==> net.started_entry(k).started,
        net.started_entry(k).info == net.nodes@[k].info,
        net.started_entry(k).id == net.nodes@[k].id,
{
}

/// What registering the Raft actor takes.
#[derive(Debug)]
pub enum RaftRegistration {
    /// Hand the started local node its new proximity.
    UpdateProximity(Proximity),
    /// The local node was registered.
    Registered(RegisterOutcome),
    /// The local node's info is not known yet.
    InfoMissing,
}

/// A request for a node of the registry, by id or, through the ring, by cluster address.
#[derive(Debug)]
pub struct GetNode {
    pub node_id: Option<u64>,
    pub cluster_address: Option<String>,
}

impl GetNode {
    /// A request for node `id`.
    pub fn for_id(id: u64) -> (r: GetNode)
        ensures
            r.node_id == Some(id),
            r.cluster_address is None,
    {
        GetNode { node_id: Some(id), cluster_address: None }
    }

    /// A request for the node a cluster address maps to.
    pub fn for_cluster_address(address: String) -> (r: GetNode)
        ensures
            r.node_id is None,
            r.cluster_address == Some(address),
    {
        GetNode { node_id: None, cluster_address: Some(address) }
    }
}

/// The request for the ids and infos of the nodes the network knows.
#[derive(Debug, Clone, Copy, PartialEq, Eq, Structural)]
pub struct GetConnectedNodes;

/// The request for a summary of the network.
#[derive(Debug, Clone, Copy, PartialEq, Eq, Structural)]
pub struct GetClusterSummary;

/// A request for the current leader, retried a few times while there is no consensus.
#[derive(Debug, Clone, Copy, PartialEq, Eq, Structural)]
pub struct GetCurrentLeader {
    attempts: u8,
}

impl GetCurrentLeader {
    /// The number of retries left.
    pub closed spec fn spec_attempts(self) -> u8 {
        self.attempts
    }

    /// A request with three retries.
    pub fn new() -> (r: GetCurrentLeader)
        ensures
            r.spec_attempts() == 3,
    {
        GetCurrentLeader { attempts: 3 }
    }

    /// The number of retries left.
    pub fn attempts_remaining(&self) -> (r: u8)
        ensures
            r == self.spec_attempts(),
    {
        self.attempts
    }

    /// The request for the next try, with one retry less, or `Err` when none is left.
    pub fn retry(self) -> (r: Result<GetCurrentLeader, ()>)
        ensures
            0 < self.spec_attempts() ==> (r matches Ok(g) && g.spec_attempts() == self.spec_attempts()
                - 1),
            self.spec_attempts() == 0 ==> r is Err,
    {
        if 0 < self.attempts {
            Ok(GetCurrentLeader { attempts: self.attempts - 1 })
        } else {
            Err(())
        }
    }
}

/// The current leader of the cluster, or `None` while there is no consensus.
#[derive(Debug, Clone, Copy, PartialEq, Eq, Structural)]
pub struct CurrentLeader(pub Option<u64>);

impl CurrentLeader {
    /// `CurrentLeader(#<id>)`, or `CurrentLeader(No consensus)`.
    pub fn describe(&self) -> (r: String)
        ensures
            r@ == "CurrentLeader("@ + match self.0 {
                Some(n) => "#"@ + decimal(n as nat),
                None => "No consensus"@,
            } + ")"@,
    {
        let mut s = "CurrentLeader(".to_owned();
        match self.0 {
            Some(n) => {
                s.append("#");
                let d = decimal_string(n);
                s.append(d.as_str());
            },
            None => s.append("No consensus"),
        }
        s.append(")");
        s
    }
}

/// What a request for the current leader leads to.
#[derive(Debug)]
pub enum LeaderLookup {
    /// The metrics name the leader.
    Found(CurrentLeader),
    /// No leader yet: ask again with `retry` after `after_secs` seconds.
    Retry { after_secs: u64, retry: GetCurrentLeader },
    /// No leader and no retry left.
    Exhausted,
}

/// The answer to a connect command once the cluster change went to the leader: a node that
/// is not the leader, or a cluster with no elected leader, still acknowledges; any other
/// error is returned.
pub fn connect_node_result(res: Result<(), NetworkError>) -> (r: Result<Acknowledged, NetworkError>)
    ensures
        match res {
            Ok(_) => r == Ok::<Acknowledged, NetworkError>(Acknowledged),
            Err(NetworkError::NotLeader { .. }) => r == Ok::<Acknowledged, NetworkError>(
                Acknowledged,
            ),
            Err(NetworkError::NoElectedLeader) => r == Ok::<Acknowledged, NetworkError>(
                Acknowledged,
            ),
            Err(e) => r == Err::<Acknowledged, NetworkError>(e),
        },
{
    match res {
        Ok(_) => Ok(Acknowledged),
        Err(NetworkError::NotLeader { .. }) => Ok(Acknowledged),
        Err(NetworkError::NoElectedLeader) => Ok(Acknowledged),
        Err(err) => Err(err),
    }
}

impl Network {
    /// The answer to a request for the current leader: the leader the metrics name, else a
    /// retry after one second while retries are left.
    pub fn current_leader(&self, msg: GetCurrentLeader) -> (r: LeaderLookup)
        ensures
            self.spec_current_leader() matches Some(l) ==> r == LeaderLookup::Found(
                CurrentLeader(Some(l)),
            ),
            self.spec_current_leader() is None && 0 < msg.spec_attempts() ==> (r matches LeaderLookup::Retry { after_secs, retry }
                && after_secs == 1 && retry.spec_attempts() == msg.spec_attempts() - 1),
            self.spec_current_leader() is None && msg.spec_attempts() == 0 ==> r is Exhausted,
    {
        let leader = match &self.metrics {
            Some(m) => m.current_leader,
            None => None,
        };
        match leader {
            Some(l) => LeaderLookup::Found(CurrentLeader(Some(l))),
            None => match msg.retry() {
                Ok(retry) => LeaderLookup::Retry { after_secs: 1, retry },
                Err(_) => LeaderLookup::Exhausted,
            },
        }
    }

    /// The id and info of the node a request names: by id, or through the ring by cluster
    /// address, or id 0 when neither finds one.
    pub fn get_node_info(&self, msg: GetNode) -> (r: (u64, Option<NodeInfo>))
        ensures
            msg.node_id matches Some(id) ==> r.0 == id,
            msg.node_id is None && msg.cluster_address is None ==> r.0 == 0,
            msg.node_id is None && msg.cluster_address is Some ==> (r.0 == 0 || ring_nodes(
                self.ring,
            ).contains(r.0)),
            msg.node_id is None && ring_nodes(self.ring).is_empty() ==> r.0 == 0,
            r.1 == (if self.nodes@.contains_key(r.0) {
                self.nodes@[r.0].info
            } else {
                None::<NodeInfo>
            }),
    {
        let node_id = match msg.node_id {
            Some(id) => id,
            None => match msg.cluster_address {
                Some(addr) => match ring_get_node(&self.ring, addr) {
                    Some(id) => id,
                    None => 0,
                },
                None => 0,
            },
        };
        let info = match self.nodes.get(&node_id) {
            Some(r) => match &r.info {
                Some(i) => Some(i.duplicate()),
                None => None,
            },
            None => None,
        };
        (node_id, info)
    }

    /// The entry of node `k` after the network starts: a node with info that is not started
    /// gets started where it can be placed; every other entry stays as it is.
    pub open spec fn started_entry(&self, k: u64) -> NodeRef {
        let e = self.nodes@[k];
        if e.info is Some && !e.started && self.can_place(k) {
            NodeRef { started: true, ..e }
        } else {
            e
        }
    }

    /// The ids of the registry's nodes whose info is known.
    pub open spec fn known_ids(&self) -> Set<u64> {
        Set::new(|k: u64| self.nodes@.contains_key(k) && self.nodes@[k].info is Some)
    }

    /// The ids and infos the registry holds.
    pub fn connected_nodes_info(&self) -> (r: BTreeMap<u64, Option<NodeInfo>>)
        ensures
            r@ == self.nodes@.map_values(|n: NodeRef| n.info),
    {
        let ids = self.node_ids();
        let mut r: BTreeMap<u64, Option<NodeInfo>> = BTreeMap::new();
        let n = ids.len();
        for i in 0..n
            invariant
                n == ids@.len(),
                ids@.to_set() == self.nodes@.dom(),
                r@ == Map::new(
                    |k: u64| ids@.take(i as int).contains(k),
                    |k: u64| self.nodes@[k].info,
                ),
        {
            let id = ids[i];
            assert(ids@.to_set().contains(id));
            let info = match self.nodes.get(&id) {
                Some(e) => match &e.info {
                    Some(x) => Some(x.duplicate()),
                    None => None,
                },
                None => None,
            };
            assert(info == self.nodes@[id].info);
            let ghost prev = r@;
            r.insert(id, info);
            proof {
                assert(ids@.take(i + 1) == ids@.take(i as int).push(id));
                lemma_take_next_contains(ids@, i as int);
                assert(r@ =~= Map::new(
                    |k: u64| ids@.take(i + 1).contains(k),
                    |k: u64| self.nodes@[k].info,
                ));
            }
        }
        proof {
            assert(ids@.take(n as int) == ids@);
            assert forall|k: u64| ids@.contains(k) <==> self.nodes@.dom().contains(k) by {
                if ids@.contains(k) {
                    assert(ids@.to_set().contains(k));
                }
                if self.nodes@.dom().contains(k) {
                    assert(ids@.to_set().contains(k));
                }
            }
            assert(r@ =~= self.nodes@.map_values(|n: NodeRef| n.info));
        }
        r
    }

    /// Registers every node of the registry whose info is known, as the network starts, and
    /// returns what each registration led to: every such node not yet started is started where
    /// it can be placed, and restored in the network state.
    pub fn on_started(&mut self) -> (r: Vec<RegisterOutcome>)
        requires
            old(self).wf(),
        ensures
            final(self).wf(),
            final(self).nodes@.dom() == old(self).nodes@.dom(),
            forall|k: u64| #[trigger]
                final(self).nodes@.contains_key(k) ==> final(self).nodes@[k] == old(
                    self,
                ).started_entry(k),
            final(self).state@.isolated == old(self).state@.isolated.difference(old(self).known_ids()),
            final(self).state@.connected == old(self).state@.connected.union(
                old(self).state@.isolated.intersect(old(self).known_ids()),
            ),
            final(self).state@.status == old(self).state@.status,
            final(self).state@.log == old(self).state@.log,
            final(self).id == old(self).id,
            final(self).info == old(self).info,
            final(self).raft_registered == old(self).raft_registered,
            final(self).metrics == old(self).metrics,
            r@.len() == old(self).known_ids().len(),
            exists|ks: Seq<u64>|
                {
                    &&& ks.len() == r@.len()
                    &&& ks.to_set() == old(self).known_ids()
                    &&& forall|a: int, b: int| 0 <= a < b < ks.len() ==> ks[a] < ks[b]
                    &&& forall|a: int|
                        0 <= a < ks.len() ==> #[trigger] r@[a] == old(self).register_outcome(
                            ks[a],
                            old(self).nodes@[ks[a]].info->0,
                        )
                },
    {
        let ids = self.node_ids();
        let mut outcomes: Vec<RegisterOutcome> = Vec::new();
        let n = ids.len();
        let ghost o = *old(self);
        let ghost known = o.known_ids();
        let ghost mut ks: Seq<u64> = Seq::empty();
        for i in 0..n
            invariant
                n == ids@.len(),
                ids@.to_set() == o.nodes@.dom(),
                ids@.no_duplicates(),
                forall|p: int, q: int| 0 <= p < q < ids@.len() ==> ids@[p] < ids@[q],
                known == o.known_ids(),
                outcomes@.len() == ks.len(),
                forall|a: int|
                    0 <= a < ks.len() ==> #[trigger] outcomes@[a] == o.register_outcome(
                        ks[a],
                        o.nodes@[ks[a]].info->0,
                    ),
                forall|a: int, b: int| 0 <= a < b < ks.len() ==> ks[a] < ks[b],
                forall|a: int| 0 <= a < ks.len() ==> ids@.take(i as int).contains(#[trigger] ks[a]),
                ks.to_set() == known.intersect(Set::new(|k: u64| ids@.take(i as int).contains(k))),
                self.wf(),
                self.nodes@.dom() == o.nodes@.dom(),
                forall|k: u64| #[trigger]
                    self.nodes@.contains_key(k) ==> self.nodes@[k] == if ids@.take(i as int).contains(k) {
                        o.started_entry(k)
                    } else {
                        o.nodes@[k]
                    },
                self.state@.isolated == o.state@.isolated.difference(
                    known.intersect(Set::new(|k: u64| ids@.take(i as int).contains(k))),
                ),
                self.state@.connected == o.state@.connected.union(
                    o.state@.isolated.intersect(known.intersect(Set::new(|k: u64| ids@.take(i as int).contains(k)))),
                ),
                self.state@.status == o.state@.status,
                self.state@.log == o.state@.log,
                self.id == o.id,
                self.info == o.info,
                self.raft_registered == o.raft_registered,
                self.metrics == o.metrics,
        {
            let id = ids[i];
            proof {
                assert(ids@.to_set().contains(id));
                assert(!ids@.take(i as int).contains(id)) by {
                    if ids@.take(i as int).contains(id) {
                        let j = choose|j: int| 0 <= j < i && ids@.take(i as int)[j] == id;
                        assert(ids@[j] == ids@[i as int]);
                    }
                }
                assert(ids@.take(i + 1) == ids@.take(i as int).push(id));
            }
            let info = match self.nodes.get(&id) {
                Some(e) => match &e.info {
                    Some(x) => Some(x.duplicate()),
                    None => None,
                },
                None => None,
            };
            proof {
                assert(self.nodes@.contains_key(id));
                assert(self.nodes@[id] == o.nodes@[id]);
                assert(info is Some <==> o.nodes@[id].info is Some);
                assert(o.nodes@.dom().contains(id));
                assert(known.contains(id) <==> o.nodes@[id].info is Some);
            }
            match info {
                Some(info) => {
                    proof {
                        assert(info == o.nodes@[id].info->0);
                        assert(self.register_outcome(id, info) == o.register_outcome(id, info));
                        assert forall|a: int| 0 <= a < ks.len() implies ks[a] < id by {
                            assert(ids@.take(i as int).contains(ks[a]));
                            let p = choose|p: int| 0 <= p < i && ids@.take(i as int)[p] == ks[a];
                            assert(ids@[p] == ks[a]);
                        }
                    }
                    let outcome = self.register_node(id, info);
                    outcomes.push(outcome);
                    proof {
                        assert(known.contains(id));
                        let ks0 = ks;
                        ks = ks.push(id);
                        assert forall|a: int| 0 <= a < ks.len() implies #[trigger] outcomes@[a]
                            == o.register_outcome(ks[a], o.nodes@[ks[a]].info->0) by {
                            if a < ks0.len() {
                                assert(ks[a] == ks0[a]);
                            }
                        }
                        assert forall|a: int| 0 <= a < ks.len() implies ids@.take(i + 1).contains(
                            #[trigger] ks[a],
                        ) by {
                            if a < ks0.len() {
                                assert(ks[a] == ks0[a]);
                                assert(ids@.take(i as int).contains(ks0[a]));
                                let p = choose|p: int| 0 <= p < i && ids@.take(i as int)[p] == ks0[a];
                                assert(ids@.take(i + 1)[p] == ks0[a]);
                            } else {
                                assert(ids@.take(i + 1)[i as int] == id);
                            }
                        }
                        ks0.lemma_push_to_set_commute(id);
                    }
                },
                None => {
                    proof {
                        assert(!known.contains(id));
                        assert forall|a: int| 0 <= a < ks.len() implies ids@.take(i + 1).contains(
                            #[trigger] ks[a],
                        ) by {
                            assert(ids@.take(i as int).contains(ks[a]));
                            let p = choose|p: int| 0 <= p < i && ids@.take(i as int)[p] == ks[a];
                            assert(ids@.take(i + 1)[p] == ks[a]);
                        }
                    }
                },
            }
            proof {
                let p = Set::new(|k: u64| ids@.take(i as int).contains(k));
                let p2 = Set::new(|k: u64| ids@.take(i + 1).contains(k));
                lemma_take_next_contains(ids@, i as int);
                assert(p2 =~= p.insert(id));
                assert forall|k: u64| #[trigger] self.nodes@.contains_key(k) implies self.nodes@[k]
                    == if ids@.take(i + 1).contains(k) {
                    o.started_entry(k)
                } else {
                    o.nodes@[k]
                } by {
                    if k != id {
                        assert(ids@.take(i + 1).contains(k) == ids@.take(i as int).contains(k));
                    }
                }
                assert(ks.to_set() =~= known.intersect(p2));
                assert(self.state@.isolated =~= o.state@.isolated.difference(known.intersect(p2)));
                assert(self.state@.connected =~= o.state@.connected.union(
                    o.state@.isolated.intersect(known.intersect(p2)),
                ));
            }
        }
        proof {
            assert(ids@.take(n as int) == ids@);
            assert(known.intersect(Set::new(|k: u64| ids@.take(n as int).contains(k))) =~= known) by {
                assert forall|k: u64| known.contains(k) implies ids@.contains(k) by {
                    assert(ids@.to_set().contains(k));
                }
            }
            assert(ks.to_set() == known);
            assert(ks.no_duplicates()) by {
                assert forall|a: int, b: int| 0 <= a < ks.len() && 0 <= b < ks.len() && a != b
                    implies ks[a] != ks[b] by {
                    if a < b {
                        assert(ks[a] < ks[b]);
                    } else {
                        assert(ks[b] < ks[a]);
                    }
                }
            }
            ks.unique_seq_to_set();
        }
        outcomes
    }
}

} // verus!
