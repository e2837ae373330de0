[package]
name = "mqtt_sn"
version = "0.1.0"
edition = "2021"
publish = false

[dependencies]
bytes = "1"
log = "0.4"
chrono = "0.4"
sled = "0.34"
tokio = { version = "1", features = ["rt-multi-thread", "macros", "net", "time", "sync"] }
socket2 = { version = "0.5", features = ["all"] }
nanoid = "0.4"
serde = { version = "1", features = ["derive"] }
thiserror = "1"
