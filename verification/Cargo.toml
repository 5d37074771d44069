[package]
name = "model_operator"
version = "0.1.0"
edition = "2021"
publish = false

[dependencies]
sha2 = "=0.11.0"
kube = { version = "=3.1.0", features = ["runtime", "derive"] }
kube-runtime = "=3.1.0"
k8s-openapi = { version = "=0.27.1", features = ["latest"] }
kcr_traefik_io = "=3.20260603.91420"
serde = { version = "*", features = ["derive"] }
serde_json = "=1.0.151"
schemars = "*"
thiserror = "*"
tokio = { version = "*", features = ["macros", "rt-multi-thread"] }
futures = "*"
tracing = "*"
tracing-subscriber = { version = "*", features = ["env-filter"] }
