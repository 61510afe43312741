[package]
name = "lsp_daemon"
version = "0.1.0"
edition = "2021"
publish = false

[dependencies]
regex = "=1.13.1"
blake3 = "=1.8.7"
sha2 = "=0.10.9"
pathdiff = "=0.2.3"
serde_json = "1"
anyhow = "1"
async-trait = "0.1"
tokio = { version = "1", features = ["fs", "sync", "rt", "time"] }
