[package]
name = "cloud_stt"
version = "0.1.0"
edition = "2021"
publish = false

[dependencies]
base64 = "0.22"
hound = "3.5"
log = "0.4"
reqwest = { version = "0.12", default-features = false, features = ["json", "rustls-tls"] }
serde = { version = "1", features = ["derive"] }
serde_json = "1"
specta = { version = "=2.0.0-rc.22", features = ["derive"] }
tempfile = "3"
tokio = { version = "1", features = ["macros", "rt", "sync", "time"] }
uuid = { version = "1", features = ["v4"] }
