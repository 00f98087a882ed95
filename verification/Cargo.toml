[package]
name = "nestri_server"
version = "0.1.0"
edition = "2021"
publish = false

[dependencies]
unsigned-varint = "=0.8.0"
regex = "=1.13.1"
dashmap = "=6.2.1"
vimputti = "=0.1.8"
anyhow = "=1.0.104"
tokio = { version = "=1.54.1", features = ["full"] }
tracing = "=0.1.44"
prost = "=0.14.4"
prost-types = "=0.14.4"
rand = "=0.9.5"
parking_lot = "=0.12.5"
clap = "=4.6.7"
tracing-subscriber = { version = "0.3", features = ["env-filter"] }
tokio-stream = "0.1"
rustls = "0.23"
libp2p = { version = "0.56", default-features = false, features = ["tokio", "tcp", "noise", "yamux", "dns", "quic", "identify", "ping", "autonat", "macros"] }
libp2p-stream = "=0.4.0-alpha"
