[package]
name = "echo_client"
version = "0.1.0"
edition = "2021"
publish = false

[dependencies]
anyhow = "1"
futures = "0.3"
http = "0.2"
log = "0.4"
pretty_env_logger = "0.5"
prost = "0.12"
tokio = { version = "1", features = ["macros", "rt-multi-thread", "sync"] }
tonic = { version = "0.11", features = ["tls"] }
