[package]
name = "bls"
version = "0.1.0"
edition = "2021"
publish = false

[dependencies]
arbitrary = "=1.5.0"
blst = "=0.3.17"
ethereum_ssz = "=0.10.4"
futures = "=0.3.34"
hex = "=0.4.3"
hyper = { version = "=0.14.32", features = ["server", "tcp", "http1"] }
serde = "=1.0.229"
slog = "=2.8.2"
tree_hash = "=0.12.1"
