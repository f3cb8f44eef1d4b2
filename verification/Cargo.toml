[package]
name = "openrec"
version = "0.1.0"
edition = "2021"
publish = false

[dependencies]
anyhow = "=1.0.104"
chrono = "=0.4.45"
uuid = { version = "=1.29.0", features = ["v4", "serde"] }
directories = "=6.0.0"
serde = { version = "=1.0.229", features = ["derive"] }
serde_json = "=1.0.154"
crossbeam-channel = "=0.5.17"
log = "=0.4.35"
env_logger = "=0.11.11"
tokio = { version = "=1.54.1", features = ["rt-multi-thread", "sync", "time", "macros"] }
futures = "=0.3.34"
ashpd = { version = "=0.13.13", features = ["global_shortcuts", "screencast"] }
ksni = "=0.3.7"
iced = { version = "=0.14.0", default-features = false, features = ["canvas", "tokio", "tiny-skia"] }
pipewire = "=0.9.2"
