[package]
name = "zonefile"
version = "0.1.0"
edition = "2021"
publish = false

[dependencies]
clap = { version = "*", features = ["derive"] }
futures = "*"
k8s-openapi = { version = "=0.22.0", features = ["v1_29"] }
kube = { version = "=0.91.0", features = ["runtime", "client", "derive"] }
kubizone-crds = "=0.11.1"
schemars = "0.8"
serde = { version = "*", features = ["derive"] }
serde_json = "*"
tokio = { version = "*", features = ["macros", "rt"] }
tracing = "*"
tracing-subscriber = "*"
