[package]
name = "focus_mochi"
version = "0.1.0"
edition = "2021"
publish = false

[dependencies]
image = { version = "=0.25.10", default-features = false }
ndarray = "0.17"
ort = { version = "=2.0.0-rc.15", default-features = false, features = ["ndarray", "load-dynamic"] }
nokhwa = { version = "=0.10.11", features = ["input-native"] }
tokio = { version = "=1.54.1", features = ["sync", "rt", "rt-multi-thread", "time", "macros"] }
parking_lot = "=0.12.5"
serde = { version = "=1.0.229", features = ["derive"] }
serde_json = "=1.0.154"
rusqlite = { version = "=0.32.1", features = ["bundled"] }
chrono = "=0.4.45"
tracing = "=0.1.44"
tracing-subscriber = { version = "=0.3.23", features = ["env-filter"] }
