[package]
name = "af_swarm"
version = "0.1.0"
edition = "2021"
publish = false

[dependencies]
aes-gcm = "0.10"
anyhow = "1"
async-trait = "0.1"
bytes = "1"
chrono = { version = "0.4", features = ["serde"] }
dashmap = "6"
hex = "0.4"
prometheus = { version = "0.13", default-features = false }
prost = "0.13"
prost-types = "0.13"
rand = "0.8"
serde = { version = "1", features = ["derive"] }
serde_json = "1"
sha2 = "0.10"
thiserror = "1"
tokio = { version = "1", features = ["rt", "macros", "time", "sync"] }
tonic = "0.12"
tracing = "0.1"
uuid = { version = "1", features = ["v4", "serde"] }
