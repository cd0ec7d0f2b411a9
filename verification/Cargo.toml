[package]
name = "moonscale"
version = "0.1.0"
edition = "2021"
publish = false

[dependencies]
kube = "*"
k8s-openapi = { version = "*", features = ["latest"] }
serde_yaml = "*"
serde_json = "*"
anyhow = "*"
log = "*"
