[package]
name = "grok_desktop"
version = "0.7.0"
edition = "2021"
publish = false

[dependencies]
serde = { version = "1", features = ["derive"] }
serde_json = "1"
toml_edit = "0.22"
uuid = { version = "1", features = ["v4"] }
base64 = "0.22"
chrono = { version = "0.4", features = ["serde"] }
dirs = "6"
which = "7"
tokio = { version = "1", features = ["process", "io-util", "time", "sync", "rt", "macros"] }

[dev-dependencies]
