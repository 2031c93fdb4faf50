[package]
name = "evo_device_plugins"
version = "0.1.13"
edition = "2021"
publish = false

[dependencies]
alsa = "0.9"
anyhow = "1"
async-trait = "0.1"
base64 = "0.22"
semver = "1"
serde = { version = "1", features = ["derive"] }
serde_json = "1"
thiserror = "1"
tokio = { version = "1", features = ["full"] }
toml = "0.8"
tracing = "0.1"
uuid = { version = "1", features = ["v4"] }
