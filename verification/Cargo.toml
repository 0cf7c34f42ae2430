[package]
name = "cpucaps"
version = "0.1.0"
edition = "2021"
publish = false

[dependencies]
clap = { version = "4", features = ["derive"] }
env_logger = "0.11"
flate2 = "1"
futures = "0.3"
k8s-openapi = { version = "0.24", features = ["latest"] }
kube = { version = "0.98", features = ["ws"] }
log = "0.4"
quick-xml = { version = "0.37", features = ["serialize"] }
serde = { version = "1", features = ["derive"] }
serde_json = "1"
serde_yaml_ng = "0.10"
tar = "0.4"
tokio = { version = "1", features = ["macros", "rt-multi-thread"] }
tokio-util = { version = "0.7", features = ["io"] }
