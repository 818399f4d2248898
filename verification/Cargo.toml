[package]
name = "pigg"
version = "0.1.0"
edition = "2021"
publish = false

[dependencies]
anyhow = "1"
clap = "4"
embassy-time = "*"
env_logger = "0.11"
futures = "0.3"
local-ip-address = "*"
log = "0.4"
mdns-sd = "*"
portpicker = "*"
postcard = { version = "1", features = ["alloc"] }
rand = "0.8"
rppal = "*"
serde = { version = "1", features = ["derive"] }
serde_json = "1"
sysinfo = "*"
tokio = { version = "1", features = ["rt-multi-thread", "macros", "net", "io-util", "time", "sync"] }
