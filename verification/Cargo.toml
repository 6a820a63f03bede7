[package]
name = "podtunnel"
version = "0.1.0"
edition = "2021"
publish = false

[dependencies]
anyhow = "1"
clap = { version = "4", features = ["derive"] }
futures = "0.3"
k8s-openapi = { version = "0.24", features = ["latest"] }
kube = { version = "0.99", features = ["runtime", "derive"] }
nix = { version = "0.29", features = ["sched"] }
schemars = "0.8"
serde = { version = "1", features = ["derive"] }
serde_json = "1"
serde_yaml = "0.9"
thiserror = "2"
tokio = { version = "1", features = ["macros", "rt-multi-thread"] }
tracing = "0.1"
tracing-subscriber = "0.3"
