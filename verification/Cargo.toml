[package]
name = "delta_patch"
version = "0.1.0"
edition = "2021"
publish = false

[dependencies]
base64 = "0.13"
clap = { version = "3", features = ["derive"] }
env_logger = "0.9"
fast_rsync = "0.1"
hyper = { version = "0.14", features = ["full"] }
log = "0.4"
pretty-bytes = "0.2"
reqwest = { version = "0.11", features = ["json"] }
serde = { version = "1", features = ["derive"] }
serde_json = "1"
sha2 = "0.9"
tokio = { version = "1", features = ["full"] }
walkdir = "2"
