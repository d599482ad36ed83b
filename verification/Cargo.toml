[package]
name = "p2p-mpc"
version = "0.1.0"
edition = "2021"
publish = false

[dependencies]
hex = "0.4"
serde = { version = "1", features = ["derive"] }
serde_json = "1"
serde_yaml = "0.9"
clap = { version = "4", default-features = false, features = ["std", "derive", "help", "usage", "error-context"] }
tokio = { version = "1", features = ["full"] }
anyhow = "1"
futures = "0.3"
tracing = "0.1"
tracing-subscriber = { version = "0.3", features = ["env-filter", "json"] }
tracing-log = "0.2"
libp2p = { version = "0.56", features = ["gossipsub", "kad", "identify", "ping", "noise", "yamux", "tcp", "tokio", "macros"] }
cggmp24 = "0.1"
round-based = "0.4"
rand = "0.8"
sha2 = "0.10"
prometheus = "0.14"
lazy_static = "1"
jsonrpsee = { version = "0.26", features = ["server", "macros"] }
