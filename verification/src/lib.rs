//! Cluster membership and Raft networking decisions for an actor-based Raft host.
//!
//! The library holds the node registry, the network status state machine, leader
//! resolution, request routing decisions and the wire entities of the cluster API.
use vstd::prelude::*;

pub mod text;
pub mod config;
pub mod fib;
mod clock;
pub mod network;
pub mod ports;
pub mod raft;
pub mod ring;
pub mod utils;

verus! {

/// Addresses and name of one node of the cluster.
#[derive(Debug, Clone)]
pub struct NodeInfo {
    pub name: String,
    pub cluster_address: String,
    pub app_address: String,
    pub public_address: String,
}

impl NodeInfo {
    /// Field-wise equality of two node infos, as the spec sees it.
    pub open spec fn same_as(self, other: NodeInfo) -> bool {
        &&& self.name@ == other.name@
        &&& self.cluster_address@ == other.cluster_address@
        &&& self.app_address@ == other.app_address@
        &&& self.public_address@ == other.public_address@
    }

    /// A copy of this node info.
    pub fn duplicate(&self) -> (r: NodeInfo)
        ensures
            r == *self,
    {
        NodeInfo {
            name: self.name.clone(),
            cluster_address: self.cluster_address.clone(),
            app_address: self.app_address.clone(),
            public_address: self.public_address.clone(),
        }
    }

    /// Compares two node infos field by field.
    pub fn equals(&self, other: &NodeInfo) -> (r: bool)
        ensures
            r == self.same_as(*other),
    {
        self.name == other.name && self.cluster_address == other.cluster_address
            && self.app_address == other.app_address && self.public_address
            == other.public_address
    }

    /// The id of the node: generated from its cluster address.
    pub fn node_id(&self) -> (r: u64)
        ensures
            r == crate::utils::spec_node_id(self.cluster_address@),
    {
        crate::utils::generate_node_id(self.cluster_address.as_str())
    }

    /// The node info as a table from field name to value, in the order name, cluster
    /// address, app address, public address.
    pub fn to_table(&self) -> (r: Vec<(String, String)>)
        ensures
            r@.len() == 4,
            r@[0].0@ == "name"@ && r@[0].1 == self.name,
            r@[1].0@ == "clusterAddress"@ && r@[1].1 == self.cluster_address,
            r@[2].0@ == "appAddress"@ && r@[2].1 == self.app_address,
            r@[3].0@ == "publicAddress"@ && r@[3].1 == self.public_address,
    {
        let mut table = Vec::new();
        table.push(("name".to_owned(), self.name.clone()));
        table.push(("clusterAddress".to_owned(), self.cluster_address.clone()));
        table.push(("appAddress".to_owned(), self.app_address.clone()));
        table.push(("publicAddress".to_owned(), self.public_address.clone()));
        table
    }

    /// The node info with every field empty.
    pub fn default() -> (r: NodeInfo)
        ensures
            r.name@ == Seq::<char>::empty(),
            r.cluster_address@ == Seq::<char>::empty(),
            r.app_address@ == Seq::<char>::empty(),
            r.public_address@ == Seq::<char>::empty(),
    {
        NodeInfo {
            name: String::new(),
            cluster_address: String::new(),
            app_address: String::new(),
            public_address: String::new(),
        }
    }
}

} // verus!
