[package]
name = "voice_sessions"
version = "0.1.0"
edition = "2021"
publish = false

[dependencies]
async-channel = "2"
async-trait = "0.1"
base64 = "0.22"
chrono = "0.4"
dirs = "*"
futures = "0.3"
instant = "0.1"
log = "0.4"
serde = { version = "1", features = ["derive"] }
serde_json = "1"
tempfile = "3"
thiserror = "2"
tokio = { version = "1", features = ["rt"] }
windows-core = "0.62"
