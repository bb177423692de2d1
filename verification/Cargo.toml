[package]
name = "cp_config"
version = "0.1.0"
edition = "2021"
publish = false

[dependencies]
async-channel = "=2.5.0"
axum = "=0.7.9"
cp-core = { version = "=0.3.39", features = ["auth"] }
git2 = { version = "=0.18.3", default-features = false }
log = "=0.4.34"
log4rs = "=1.4.0"
serde = { version = "=1.0.229", features = ["derive"] }
serde_yaml = "=0.9.34"
tokio = { version = "=1.54.1", features = ["full"] }
uuid = { version = "=1.29.0", features = ["v4"] }
zip = { version = "=0.6.6", default-features = false }
