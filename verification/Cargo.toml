[package]
name = "gtany"
version = "0.1.0"
edition = "2021"
publish = false

[dependencies]
anyhow = "=1.0.104"
clap = { version = "=4.6.7", features = ["derive", "env"] }
env_logger = "=0.11.11"
futures = "=0.3.34"
log = "=0.4.34"
notify = "=8.2.0"
serde = { version = "=1.0.229", features = ["derive"] }
serde_json = "=1.0.151"
sha2 = "=0.11.0"
shell-words = "=1.1.1"
tempdir = "=0.3.7"
tokio = { version = "=1.53.2", features = ["full"] }
tokio-stream = "=0.1.19"
url = "=2.5.8"
warp = { version = "=0.4.3", features = ["server", "websocket"] }
