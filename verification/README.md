# actix_raft_scaffold

A Raft cluster host: the node registry, the network's membership state machine, leader
resolution, routing of Raft RPCs, the wire entities of the cluster HTTP API and the
configuration of a node.

- `src/` is the library, written in Verus: every function there carries a contract that Verus
  proves. Calls into `rust-crypto` (SHA-256), `hash_ring` and `chrono` (the clock) go through
  small trusted wrappers whose contracts say what those crates do.
- `app/` is the host around it: actix actors, the actix-web endpoint, reqwest calls to other
  nodes, configuration loading with `config` and `structopt`, and the serde forms of the
  entities.
- `tests/` exercises the library on concrete values.
