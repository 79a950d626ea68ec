[package]
name = "whatever"
version = "0.1.0"
edition = "2021"
publish = false

[dependencies]
chrono = { version = "=0.4.45", default-features = false, features = ["std"] }
csv = "=1.4.0"
ed25519-dalek = "*"
r2d2_redis = "*"
rsa = "*"
serde = { version = "=1.0.229", features = ["derive"] }
serde_json = "=1.0.151"
thiserror = "=2.0.21"
tokio = { version = "*", features = ["rt"] }
validator = "*"
zip = { version = "=8.6.0", default-features = false }
