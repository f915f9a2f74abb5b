[package]
name = "pgkube"
version = "0.1.0"
edition = "2021"
publish = false

[dependencies]
anyhow = "1.0.104"
futures = "0.3.34"
garde = { version = "0.18.0", features = ["derive"] }
k8s-openapi = { version = "0.22.0", features = ["latest"] }
kube = { version = "0.92.1", default-features = false, features = ["client", "derive", "runtime"] }
schemars = "0.8.22"
serde = { version = "1.0.229", features = ["derive"] }
serde_json = "1.0.154"
serde_yaml = "0.9.34"
thiserror = "1.0.69"
tokio = { version = "1.54.1", features = ["macros", "rt-multi-thread"] }
tracing = "0.1.44"
tracing-subscriber = "0.3.23"
