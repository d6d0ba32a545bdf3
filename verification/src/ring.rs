//! The consistent-hash ring that maps cluster addresses to node ids.
use vstd::prelude::*;
use hash_ring::HashRing;

verus! {

/// A consistent-hash ring of the `hash_ring` crate over node ids. Verus cannot take the
/// ring's hasher type, so the ring is held here, out of Verus's sight.
#[verifier::external_body]
pub struct NodeRing {
    ring: HashRing<u64>,
}

/// The node ids that a ring holds.
pub uninterp spec fn ring_nodes(ring: NodeRing) -> Set<u64>;

/// `HashRing::new(nodes, replicas)`: a ring over `nodes` with `replicas` virtual nodes each.
/// Its source adds each node once per replica, so a ring made with no node, or with no
/// replica, holds no node, and no ring holds a node that it was not given.
#[verifier::external_body]
fn ring_new(nodes: Vec<u64>, replicas: isize) -> (r: NodeRing)
    ensures
        ring_nodes(r).subset_of(nodes@.to_set()),
        replicas <= 0 ==> ring_nodes(r).is_empty(),
{
    NodeRing { ring: HashRing::new(nodes, replicas) }
}

/// `HashRing::get_node(key)`: the node that `key` hashes to. Its source answers `None`
/// exactly when the ring holds no virtual node, and otherwise one of the ring's nodes; which
/// one is not stated here.
#[verifier::external_body]
pub(crate) fn ring_get_node(ring: &NodeRing, key: String) -> (r: Option<u64>)
    ensures
        ring_nodes(*ring).is_empty() ==> r is None,
        r matches Some(n) ==> ring_nodes(*ring).contains(n),
{
    ring.ring.get_node(key).map(|id| *id)
}

/// Builder of the node ring.
pub struct Ring;

impl Ring {
    /// Creates an empty hash ring; `replicas` is the number of virtual nodes each node added
    /// later has, to spread the keys.
    pub fn new(replicas: isize) -> (r: NodeRing)
        ensures
            ring_nodes(r).is_empty(),
    {
        let r = ring_new(Vec::new(), replicas);
        proof {
            assert(Seq::<u64>::empty().to_set() =~= Set::empty());
        }
        r
    }
}

} // verus!
