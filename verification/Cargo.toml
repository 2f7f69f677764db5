[package]
name = "miden_node"
version = "0.1.0"
edition = "2021"
publish = false

[dependencies]
miden-objects = "0.2"
async-trait = "*"
prost = "*"
tokio = { version = "1", features = ["macros", "rt", "sync", "time"] }
tonic = { version = "*", default-features = false }
tracing = "*"
