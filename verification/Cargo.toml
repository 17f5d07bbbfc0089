[package]
name = "scylladb_rs"
version = "0.1.0"
edition = "2021"
publish = false

[dependencies]
serde_json = "*"
scylla = "*"
tokio = { version = "*", features = ["rt-multi-thread", "macros"] }
