[package]
name = "sbtltv"
version = "0.1.0"
edition = "2021"
publish = false

[dependencies]
serde = { version = "=1.0.229", features = ["derive"] }
serde_json = "=1.0.154"
url = "=2.5.8"
base64 = "=0.22.1"
reqwest = { version = "=0.13.5", default-features = false }
tokio = { version = "=1.54.1", features = ["net", "rt", "rt-multi-thread"] }
keyring = "=4.2.0"
dirs = "=7.0.0"
log = "=0.4.34"
env_logger = "=0.11.11"
gl = "*"
surfman = "*"
euclid = "*"
libmpv2 = "*"
raw-window-handle = "*"
