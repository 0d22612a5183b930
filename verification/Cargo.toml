[package]
name = "p2p_node"
version = "0.1.0"
edition = "2021"
publish = false

[dependencies]
anyhow = "=1.0.104"
futures = "=0.3.34"
libp2p-core = "=0.30.2"
libp2p-noise = "=0.33.0"
multistream-select = "=0.10.4"
thiserror = "=1.0.69"
tokio = { version = "=1.53.2", features = ["time", "rt"] }
void = "=1.0.2"
yamux = "=0.9.0"
