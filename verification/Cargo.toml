[package]
name = "mstodo_lib"
version = "0.1.0"
edition = "2021"
publish = false

[dependencies]
serde_json = "=1.0.154"
serde = { version = "=1.0.229", features = ["derive"] }
reqwest = "=0.12.28"
tokio = { version = "=1.54.1", features = ["macros", "rt", "signal", "sync", "time"] }
keyring = { version = "=3.6.3", features = ["apple-native", "linux-native", "windows-native"] }
thiserror = "=1.0.69"
