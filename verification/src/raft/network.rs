//! Routing of Raft RPCs through the network to the node they target.
use vstd::prelude::*;
use crate::network::Network;

verus! {

broadcast use {vstd::std_specs::btree::group_btree_axioms, vstd::laws_cmp::group_laws_cmp};

impl Network {
    /// Whether an RPC between `target` and `sender` must be dropped: either is isolated.
    pub open spec fn isolates(&self, target: u64, sender: u64) -> bool {
        self.state@.isolated.contains(target) || self.state@.isolated.contains(sender)
    }

    /// The node an append-entries RPC from `leader_id` goes to: its target, when the target's
    /// actor is started and neither end is isolated.
    pub fn route_append_entries(&self, target: u64, leader_id: u64) -> (r: Option<u64>)
        ensures
            r == (if self.nodes@.contains_key(target) && self.nodes@[target].started
                && !self.isolates(target, leader_id) {
                Some(target)
            } else {
                None::<u64>
            }),
            self.state@.isolated.contains(leader_id) || self.state@.isolated.contains(target) ==> r
                is None,
            r matches Some(t) ==> t == target && self.nodes@.contains_key(target)
                && self.nodes@[target].started,
    {
        match self.get_node(target) {
            Some(node) => {
                if self.state.is_isolated_node(target) || self.state.is_isolated_node(leader_id) {
                    None
                } else {
                    Some(node)
                }
            },
            None => None,
        }
    }

    /// The node a vote RPC from `candidate_id` goes to: its target, when the target's actor is
    /// started and neither end is isolated.
    pub fn route_vote(&self, target: u64, candidate_id: u64) -> (r: Option<u64>)
        ensures
            r == (if self.nodes@.contains_key(target) && self.nodes@[target].started
                && !self.isolates(target, candidate_id) {
                Some(target)
            } else {
                None::<u64>
            }),
            self.state@.isolated.contains(candidate_id) || self.state@.isolated.contains(target)
                ==> r is None,
            r matches Some(t) ==> t == target && self.nodes@.contains_key(target)
                && self.nodes@[target].started,
    {
        match self.get_node(target) {
            Some(node) => {
                if self.state.is_isolated_node(target) || self.state.is_isolated_node(candidate_id) {
                    None
                } else {
                    Some(node)
                }
            },
            None => None,
        }
    }

    /// Whether an install-snapshot RPC from `leader_id` to `target` is dropped: the target is
    /// unknown, or either end is isolated.
    pub fn ignore_in_isolation(&self, target_id: u64, leader_id: u64) -> (r: Result<(), ()>)
        ensures
            r is Err <==> (!self.nodes@.contains_key(target_id) || self.isolates(target_id, leader_id)),
            self.state@.isolated.contains(leader_id) || self.state@.isolated.contains(target_id)
                ==> r is Err,
            r is Ok ==> !self.state@.isolated.contains(leader_id) && !self.state@.isolated.contains(
                target_id,
            ),
    {
        if !self.nodes.contains_key(&target_id) || self.state.is_isolated_node(target_id)
            || self.state.is_isolated_node(leader_id) {
            Err(())
        } else {
            Ok(())
        }
    }
}

/// An RPC is dropped exactly when one of its ends is isolated: isolating the sender or the
/// target of an RPC drops it, and restoring both lets it through again.
pub proof fn law_isolated_ends_drop_rpcs(net: Network, target: u64, sender: u64)
    ensures
        net.state@.isolated.contains(sender) ==> net.isolates(target, sender),
        net.state@.isolated.contains(target) ==> net.isolates(target, sender),
        !net.state@.isolated.contains(sender) && !net.state@.isolated.contains(target)
            ==> !net.isolates(target, sender),
        net.isolates(target, sender) == net.isolates(sender, target),
        net.state@.isolating(sender).isolated.contains(sender),
{
}

} // verus!
