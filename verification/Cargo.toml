[package]
name = "istio_injection_policy"
version = "0.1.0"
edition = "2021"
publish = false

[dependencies]
k8s-openapi = { version = "*", default-features = false, features = ["latest"] }
kubewarden-policy-sdk = { version = "*", default-features = false }
lazy_static = "1"
serde = { version = "1", features = ["derive"] }
serde_json = "1"
slog = "2"
