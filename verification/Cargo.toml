[package]
name = "rrp"
version = "0.1.0"
edition = "2021"
publish = false

[dependencies]
hex = "0.4"
sha2 = "0.10"
rand = "0.8"
dashmap = "5"
anyhow = "1"
thiserror = "1"
serde = { version = "1", features = ["derive"] }
toml = "0.8"
clap = { version = "4", features = ["derive"] }
directories = "5"
tokio = { version = "1", features = ["full"] }
tokio-stream = "0.1"
async-stream = "0.3"
prost = "0.12"
tonic = { version = "0.11", features = ["tls"] }
rcgen = "0.11"
