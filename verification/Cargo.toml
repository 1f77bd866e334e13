[package]
name = "kastlewatch"
version = "0.1.0"
edition = "2021"
publish = false

[dependencies]
base64 = "=0.22.1"
chrono = "=0.4.45"
serde = { version = "*", features = ["derive"] }
serde_json = "*"
serde_yaml = "*"
schemars = "*"
kube = { version = "=3.1.0", features = ["client", "runtime", "derive"] }
k8s-openapi = { version = "=0.27.1", features = ["latest"] }
axum = "*"
tokio = { version = "*", features = ["macros", "rt-multi-thread", "net", "time"] }
reqwest = { version = "*", default-features = false, features = ["json", "rustls-tls"] }
futures = "*"
anyhow = "*"
thiserror = "*"
tracing = "*"
tracing-subscriber = "*"
clap = { version = "*", features = ["derive"] }
config = "*"
