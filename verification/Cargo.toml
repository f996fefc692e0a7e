[package]
name = "bulk2es_rs"
version = "0.1.0"
edition = "2021"
publish = false

[dependencies]
serde_json = "*"
serde = { version = "*", features = ["derive"] }
serde_yaml = "*"
elasticsearch = "=7.17.7-alpha.1"
tokio = { version = "*", features = ["rt", "rt-multi-thread"] }
rayon = "*"
glob = "*"
clap = "*"
log = "*"
env_logger = "*"
url = "*"
