[package]
name = "actix_raft_scaffold"
version = "0.1.0"
edition = "2021"
publish = false

[dependencies]
rust-crypto = "=0.2.36"
hash_ring = "=0.2.0"
chrono = "=0.4.19"
actix = "=0.8.3"
actix-raft = "=0.4.4"
actix-web = "=1.0.9"
actix-cors = "=0.1.0"
actix-server = "=0.5.1"
serde = { version = "=1.0.229", features = ["derive"] }
serde_json = "=1.0.154"
serde_cbor = "=0.10.2"
reqwest = { version = "=0.9.24", default-features = false }
futures = "=0.1.31"
tokio = "=0.1.22"
config = "=0.9.3"
structopt = "=0.3.26"
thiserror = "=1.0.69"
tracing = "=0.1.44"
