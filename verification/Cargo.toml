[package]
name = "kuberator"
version = "0.4.0"
edition = "2021"
publish = false

[dependencies]
anyhow = "1"
async-trait = "*"
chrono = "*"
futures = "*"
k8s-openapi = { version = "*", features = ["latest"] }
kube = { version = "*", features = ["runtime", "client"] }
serde = { version = "1", features = ["derive"] }
strum = { version = "*", features = ["derive"] }
thiserror = "*"
tokio = { version = "1", features = ["sync", "macros", "rt"] }
tracing = "*"
