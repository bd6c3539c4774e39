[package]
name = "llauncher"
version = "0.1.0"
edition = "2021"
publish = false

[dependencies]
md-5 = "=0.10.6"
serde = { version = "=1.0.229", features = ["derive"] }
serde_json = "=1.0.154"
reqwest = { version = "=0.12.28", default-features = false, features = ["stream"] }
tokio = { version = "=1.54.1", features = ["rt", "sync", "time", "fs", "io-util", "macros"] }
futures-util = "=0.3.34"
libc = "=0.2.191"
tauri = { version = "=2.12.5", default-features = false }
