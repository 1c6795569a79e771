[package]
name = "opencontroller"
version = "0.1.0"
edition = "2021"
publish = false

[dependencies]
chrono = "0.4"
serde = { version = "1", features = ["derive"] }
toml = "0.8"
tokio = { version = "1.43", features = ["rt-multi-thread", "macros", "sync", "time", "fs"] }
egui = "0.31.1"
rumqttc = { version = "0.24.0", default-features = false }
color-eyre = { version = "0.6", default-features = false }
thiserror = "2"
dirs = "6"
tracing = "0.1"
tracing-subscriber = "0.3"
