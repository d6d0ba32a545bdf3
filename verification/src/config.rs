//! The node's configuration: seed nodes, join strategy and Raft timings.
use vstd::prelude::*;
use crate::NodeInfo;

verus! {

/// Errors in building or reading the configuration.
#[derive(Debug)]
pub enum ConfigurationError {
    /// The host is missing from the nodes list.
    HostMissing(String),
    /// The configuration source could not be read into the schema; the source's message.
    ConfigSource(String),
    /// A part of the configuration was not set before building.
    NoConfiguration,
    /// Any other configuration error.
    Unknown(String),
}

/// Command line options of a node.
#[derive(Debug)]
pub struct Opt {
    /// node ref in configuration for this node
    pub host: String,
    /// path of the application configuration file
    pub configuration_path: Option<String>,
}

/// How a node joins the cluster.
#[derive(Debug, Clone, Copy, PartialEq, Eq, Structural)]
pub enum JoinStrategy {
    Static,
    Dynamic,
}

/// The configuration as it is read from its source. Timeouts are in milliseconds except the
/// two discovery and initialisation timeouts, which are in seconds.
#[derive(Debug)]
pub struct ConfigSchema {
    pub discovery_host_address: String,
    pub join_strategy: JoinStrategy,
    pub ring_replicas: isize,
    pub nodes: Vec<NodeInfo>,
    pub max_discovery_timeout: i64,
    pub max_raft_init_timeout: i64,
    pub election_timeout_min: i64,
    pub election_timeout_max: i64,
    pub heartbeat_interval: i64,
    pub max_payload_entries: usize,
    pub metrics_rate: i64,
    pub snapshot_dir: String,
    pub snapshot_max_chunk_size: u64,
}

/// The configuration of a node. Every duration is in milliseconds.
#[derive(Debug)]
pub struct Configuration {
    pub host: String,
    pub discovery_host: String,
    pub join_strategy: JoinStrategy,
    pub ring_replicas: isize,
    /// The seed nodes, one per name.
    pub seed_nodes: Vec<NodeInfo>,
    pub max_discovery_timeout: i64,
    pub max_raft_init_timeout: i64,
    pub election_timeout_min: i64,
    pub election_timeout_max: i64,
    pub heartbeat_interval: i64,
    pub max_payload_entries: usize,
    pub metrics_rate: i64,
    pub snapshot_dir: String,
    pub snapshot_max_chunk_size: u64,
}

/// The parameters handed to the Raft configuration builder.
#[derive(Debug)]
pub struct RaftParameters {
    pub snapshot_dir: String,
    pub election_timeout_min: u16,
    pub election_timeout_max: u16,
    pub heartbeat_interval: u16,
    pub metrics_rate_millis: u64,
    pub snapshot_max_chunk_size: u64,
}

/// The nodes of a list keyed by name; a later node replaces an earlier one of the same name.
pub open spec fn seed_map(nodes: Seq<NodeInfo>) -> Map<Seq<char>, NodeInfo>
    decreases nodes.len(),
{
    if nodes.len() == 0 {
        Map::empty()
    } else {
        seed_map(nodes.drop_last()).insert(nodes.last().name@, nodes.last())
    }
}

/// No two nodes of the list share a name.
pub open spec fn names_unique(nodes: Seq<NodeInfo>) -> bool {
    forall|i: int, j: int|
        0 <= i < nodes.len() && 0 <= j < nodes.len() && i != j ==> (#[trigger] nodes[i]).name@
            != (#[trigger] nodes[j]).name@
}

/// The list holds exactly the nodes of the map, one per name.
pub open spec fn lists_map(nodes: Seq<NodeInfo>, m: Map<Seq<char>, NodeInfo>) -> bool {
    &&& names_unique(nodes)
    &&& forall|i: int| 0 <= i < nodes.len() ==> m.contains_key((#[trigger] nodes[i]).name@)
        && m[nodes[i].name@] == nodes[i]
    &&& forall|k: Seq<char>|
        #[trigger] m.contains_key(k) ==> exists|i: int| 0 <= i < nodes.len() && (#[trigger] nodes[i]).name@ == k
}

/// Seconds as milliseconds, where the duration type can hold them.
pub open spec fn seconds_fit(s: i64) -> bool {
    -(i64::MAX / 1000) <= s <= i64::MAX / 1000
}

/// The position of the node named `name` in `nodes`, if any.
pub fn find_by_name(nodes: &Vec<NodeInfo>, name: &String) -> (r: Option<usize>)
    ensures
        r matches Some(i) ==> i < nodes@.len() && nodes@[i as int].name@ == name@,
        r is None ==> forall|i: int| 0 <= i < nodes@.len() ==> (#[trigger] nodes@[i]).name@ != name@,
{
    let n = nodes.len();
    for i in 0..n
        invariant
            n == nodes@.len(),
            forall|j: int| 0 <= j < i ==> (#[trigger] nodes@[j]).name@ != name@,
    {
        if nodes[i].name == *name {
            return Some(i);
        }
    }
    None
}

/// One node per name, the last node of each name winning.
pub fn seed_nodes_by_name(nodes: &Vec<NodeInfo>) -> (r: Vec<NodeInfo>)
    ensures
        lists_map(r@, seed_map(nodes@)),
{
    let mut r: Vec<NodeInfo> = Vec::new();
    let n = nodes.len();
    for idx in 0..n
        invariant
            n == nodes@.len(),
            lists_map(r@, seed_map(nodes@.take(idx as int))),
    {
        let node = nodes[idx].duplicate();
        let ghost prev = r@;
        let ghost m = seed_map(nodes@.take(idx as int));
        proof {
            let t = nodes@.take(idx + 1);
            assert(t.drop_last() == nodes@.take(idx as int));
            assert(t.last() == nodes@[idx as int]);
        }
        match find_by_name(&r, &node.name) {
            Some(j) => {
                r.set(j, node);
                proof {
                    let m2 = m.insert(nodes@[idx as int].name@, nodes@[idx as int]);
                    assert forall|i: int| 0 <= i < r@.len() implies m2.contains_key(
                        (#[trigger] r@[i]).name@,
                    ) && m2[r@[i].name@] == r@[i] by {
                        if i != j {
                            assert(r@[i] == prev[i]);
                        }
                    }
                    assert forall|k: Seq<char>| #[trigger] m2.contains_key(k) implies exists|i: int|
                        0 <= i < r@.len() && (#[trigger] r@[i]).name@ == k by {
                        if k == nodes@[idx as int].name@ {
                            assert(r@[j as int].name@ == k);
                        } else {
                            let i = choose|i: int| 0 <= i < prev.len() && (#[trigger] prev[i]).name@ == k;
                            assert(r@[i] == prev[i]);
                        }
                    }
                    assert forall|a: int, b: int|
                        0 <= a < r@.len() && 0 <= b < r@.len() && a != b implies (#[trigger] r@[a]).name@
                        != (#[trigger] r@[b]).name@ by {
                        if a != j && b != j {
                            assert(r@[a] == prev[a]);
                            assert(r@[b] == prev[b]);
                        } else if a == j {
                            assert(r@[b] == prev[b]);
                            assert(prev[j as int].name@ == r@[a].name@);
                        } else {
                            assert(r@[a] == prev[a]);
                            assert(prev[j as int].name@ == r@[b].name@);
                        }
                    }
                }
            },
            None => {
                r.push(node);
                proof {
                    let m2 = m.insert(nodes@[idx as int].name@, nodes@[idx as int]);
                    assert forall|i: int| 0 <= i < r@.len() implies m2.contains_key(
                        (#[trigger] r@[i]).name@,
                    ) && m2[r@[i].name@] == r@[i] by {
                        if i < prev.len() {
                            assert(r@[i] == prev[i]);
                        }
                    }
                    assert forall|k: Seq<char>| #[trigger] m2.contains_key(k) implies exists|i: int|
                        0 <= i < r@.len() && (#[trigger] r@[i]).name@ == k by {
                        if k == nodes@[idx as int].name@ {
                            assert(r@[prev.len() as int].name@ == k);
                        } else {
                            let i = choose|i: int| 0 <= i < prev.len() && (#[trigger] prev[i]).name@ == k;
                            assert(r@[i] == prev[i]);
                        }
                    }
                    assert forall|a: int, b: int|
                        0 <= a < r@.len() && 0 <= b < r@.len() && a != b implies (#[trigger] r@[a]).name@
                        != (#[trigger] r@[b]).name@ by {
                        if a < prev.len() && b < prev.len() {
                            assert(r@[a] == prev[a]);
                            assert(r@[b] == prev[b]);
                        } else if a < prev.len() {
                            assert(r@[a] == prev[a]);
                        } else {
                            assert(r@[b] == prev[b]);
                        }
                    }
                }
            },
        }
    }
    assert(nodes@.take(n as int) == nodes@);
    r
}

impl Configuration {
    /// A configuration is valid when no two of its seed nodes share a name.
    pub open spec fn wf(&self) -> bool {
        names_unique(self.seed_nodes@)
    }

    /// The configuration that a schema describes, for no host yet: the seed nodes are keyed
    /// by name, the discovery timeout is taken from the schema's Raft initialisation timeout
    /// (in seconds), and the other timeouts are milliseconds.
    pub fn from_schema(schema: ConfigSchema) -> (r: Configuration)
        requires
            seconds_fit(schema.max_raft_init_timeout),
        ensures
            r.host@ == Seq::<char>::empty(),
            r.discovery_host == schema.discovery_host_address,
            r.join_strategy == schema.join_strategy,
            r.ring_replicas == schema.ring_replicas,
            r.wf(),
            lists_map(r.seed_nodes@, seed_map(schema.nodes@)),
            r.max_discovery_timeout == schema.max_raft_init_timeout * 1000,
            r.max_raft_init_timeout == schema.max_raft_init_timeout * 1000,
            r.election_timeout_min == schema.election_timeout_min,
            r.election_timeout_max == schema.election_timeout_max,
            r.heartbeat_interval == schema.heartbeat_interval,
            r.max_payload_entries == schema.max_payload_entries,
            r.metrics_rate == schema.metrics_rate,
            r.snapshot_dir == schema.snapshot_dir,
            r.snapshot_max_chunk_size == schema.snapshot_max_chunk_size,
    {
        let seed_nodes = seed_nodes_by_name(&schema.nodes);
        let init_millis = schema.max_raft_init_timeout * 1000;
        Configuration {
            host: String::new(),
            discovery_host: schema.discovery_host_address,
            join_strategy: schema.join_strategy,
            ring_replicas: schema.ring_replicas,
            seed_nodes,
            max_discovery_timeout: init_millis,
            max_raft_init_timeout: init_millis,
            election_timeout_min: schema.election_timeout_min,
            election_timeout_max: schema.election_timeout_max,
            heartbeat_interval: schema.heartbeat_interval,
            max_payload_entries: schema.max_payload_entries,
            metrics_rate: schema.metrics_rate,
            snapshot_dir: schema.snapshot_dir,
            snapshot_max_chunk_size: schema.snapshot_max_chunk_size,
        }
    }

    /// The configuration that a schema describes, for host `host`.
    pub fn for_host(host: &str, schema: ConfigSchema) -> (r: Configuration)
        requires
            seconds_fit(schema.max_raft_init_timeout),
        ensures
            r.host@ == host@,
            r.discovery_host == schema.discovery_host_address,
            r.join_strategy == schema.join_strategy,
            r.ring_replicas == schema.ring_replicas,
            r.wf(),
            lists_map(r.seed_nodes@, seed_map(schema.nodes@)),
            r.max_discovery_timeout == schema.max_raft_init_timeout * 1000,
            r.max_raft_init_timeout == schema.max_raft_init_timeout * 1000,
            r.election_timeout_min == schema.election_timeout_min,
            r.election_timeout_max == schema.election_timeout_max,
            r.heartbeat_interval == schema.heartbeat_interval,
            r.max_payload_entries == schema.max_payload_entries,
            r.metrics_rate == schema.metrics_rate,
            r.snapshot_dir == schema.snapshot_dir,
            r.snapshot_max_chunk_size == schema.snapshot_max_chunk_size,
    {
        let c = Self::from_schema(schema);
        Configuration { host: host.to_owned(), ..c }
    }

    /// The seed node named `name`, if there is one.
    pub fn seed_node(&self, name: &String) -> (r: Option<NodeInfo>)
        ensures
            r matches Some(info) ==> exists|i: int|
                0 <= i < self.seed_nodes@.len() && self.seed_nodes@[i] == info && info.name@ == name@,
            r is None ==> forall|i: int|
                0 <= i < self.seed_nodes@.len() ==> (#[trigger] self.seed_nodes@[i]).name@ != name@,
            self.wf() ==> (r matches Some(info) ==> forall|i: int|
                0 <= i < self.seed_nodes@.len() && (#[trigger] self.seed_nodes@[i]).name@ == name@
                    ==> self.seed_nodes@[i] == info),
    {
        match find_by_name(&self.seed_nodes, name) {
            Some(i) => Some(self.seed_nodes[i].duplicate()),
            None => None,
        }
    }

    /// The node info of this host, which must be one of the seed nodes.
    pub fn host_info(&self) -> (r: NodeInfo)
        requires
            exists|i: int|
                0 <= i < self.seed_nodes@.len() && (#[trigger] self.seed_nodes@[i]).name@ == self.host@,
        ensures
            exists|i: int| 0 <= i < self.seed_nodes@.len() && self.seed_nodes@[i] == r,
            r.name@ == self.host@,
            self.wf() ==> forall|i: int|
                0 <= i < self.seed_nodes@.len() && (#[trigger] self.seed_nodes@[i]).name@ == self.host@
                    ==> self.seed_nodes@[i] == r,
    {
        let found = self.seed_node(&self.host);
        match found {
            Some(info) => info,
            None => {
                proof {
                    let i = choose|i: int|
                        0 <= i < self.seed_nodes@.len() && (#[trigger] self.seed_nodes@[i]).name@
                            == self.host@;
                    assert(self.seed_nodes@[i].name@ != self.host@);
                }
                NodeInfo::default()
            },
        }
    }

    /// A copy of this configuration.
    pub fn duplicate(&self) -> (r: Configuration)
        ensures
            r.host == self.host,
            r.discovery_host == self.discovery_host,
            r.join_strategy == self.join_strategy,
            r.ring_replicas == self.ring_replicas,
            r.seed_nodes@ == self.seed_nodes@,
            r.max_discovery_timeout == self.max_discovery_timeout,
            r.max_raft_init_timeout == self.max_raft_init_timeout,
            r.election_timeout_min == self.election_timeout_min,
            r.election_timeout_max == self.election_timeout_max,
            r.heartbeat_interval == self.heartbeat_interval,
            r.max_payload_entries == self.max_payload_entries,
            r.metrics_rate == self.metrics_rate,
            r.snapshot_dir == self.snapshot_dir,
            r.snapshot_max_chunk_size == self.snapshot_max_chunk_size,
    {
        let mut seeds: Vec<NodeInfo> = Vec::new();
        let n = self.seed_nodes.len();
        for i in 0..n
            invariant
                n == self.seed_nodes@.len(),
                seeds@ == self.seed_nodes@.take(i as int),
        {
            seeds.push(self.seed_nodes[i].duplicate());
            assert(self.seed_nodes@.take(i + 1) == self.seed_nodes@.take(i as int).push(
                self.seed_nodes@[i as int],
            ));
        }
        assert(self.seed_nodes@.take(n as int) == self.seed_nodes@);
        Configuration {
            host: self.host.clone(),
            discovery_host: self.discovery_host.clone(),
            join_strategy: self.join_strategy,
            ring_replicas: self.ring_replicas,
            seed_nodes: seeds,
            max_discovery_timeout: self.max_discovery_timeout,
            max_raft_init_timeout: self.max_raft_init_timeout,
            election_timeout_min: self.election_timeout_min,
            election_timeout_max: self.election_timeout_max,
            heartbeat_interval: self.heartbeat_interval,
            max_payload_entries: self.max_payload_entries,
            metrics_rate: self.metrics_rate,
            snapshot_dir: self.snapshot_dir.clone(),
            snapshot_max_chunk_size: self.snapshot_max_chunk_size,
        }
    }

    /// The parameters of the Raft configuration: the three timings cut down to `u16`
    /// milliseconds (wrapping, as a cast does), and the metrics rate, which must not be
    /// negative.
    pub fn raft_parameters(&self) -> (r: RaftParameters)
        requires
            self.metrics_rate >= 0,
        ensures
            r.snapshot_dir == self.snapshot_dir,
            r.election_timeout_min == self.election_timeout_min as u16,
            r.election_timeout_max == self.election_timeout_max as u16,
            r.heartbeat_interval == self.heartbeat_interval as u16,
            r.metrics_rate_millis == self.metrics_rate,
            r.snapshot_max_chunk_size == self.snapshot_max_chunk_size,
    {
        RaftParameters {
            snapshot_dir: self.snapshot_dir.clone(),
            election_timeout_min: self.election_timeout_min as u16,
            election_timeout_max: self.election_timeout_max as u16,
            heartbeat_interval: self.heartbeat_interval as u16,
            metrics_rate_millis: self.metrics_rate as u64,
            snapshot_max_chunk_size: self.snapshot_max_chunk_size,
        }
    }
}

} // verus!
