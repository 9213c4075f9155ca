[package]
name = "jpdb_flow"
version = "0.1.0"
edition = "2021"
publish = false

[dependencies]
serde_urlencoded = "*"
serde = "*"
reqwest = { version = "*", default-features = false }
tower = { version = "*", features = ["buffer", "limit", "util"] }
open = "*"
anyhow = "*"
log = "*"
