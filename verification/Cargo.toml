[package]
name = "yonder"
version = "0.1.0"
edition = "2021"
publish = false

[dependencies]
anyhow = "=1.0.104"
chrono = { version = "=0.4.45", features = ["serde"] }
data-encoding = "=2.11.1"
dirs = "=7.0.0"
hostname = "=0.4.2"
iroh-base = { version = "=1.4.1", features = ["key"] }
log = "=0.4.35"
os_info = "=3.15.0"
sanitize-filename = "=0.6.0"
serde = { version = "=1.0.229", features = ["derive"] }
serde_json = "=1.0.154"
tokio = { version = "=1.54.1", features = ["sync", "rt", "macros", "time", "fs", "io-util"] }
uuid = { version = "=1.29.0", features = ["v4"] }

[dev-dependencies]
tempfile = "=3.27.0"
