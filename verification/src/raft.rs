//! The Raft side of the host: building the Raft system and routing its RPCs.
pub mod system;
pub mod network;
pub mod builder;
