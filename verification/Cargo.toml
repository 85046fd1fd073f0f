[package]
name = "image_sync_operator"
version = "0.1.0"
edition = "2021"
publish = false

[dependencies]
regex = "=1.13.1"
k8s-openapi = { version = "=0.29.0", features = ["latest", "schemars"] }
kube = { version = "=5.0.0", features = ["runtime", "derive", "client"] }
kube-lease-manager = "=0.13.1"
tokio = { version = "=1.54.1", features = ["macros", "rt-multi-thread", "time"] }
futures = "=0.3.34"
once_cell = "=1.21.4"
serde = { version = "=1.0.229", features = ["derive"] }
serde_json = "=1.0.154"
schemars = "=1.2.3"
thiserror = "=2.0.21"
yaml_serde = "=0.10.7"
