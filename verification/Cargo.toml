[package]
name = "sledge"
version = "0.1.0"
edition = "2021"
publish = false

[dependencies]
anyhow = "1"
clap = { version = "4", features = ["derive"] }
serde = { version = "1", features = ["derive"] }
serde_json = "1"
toml = "0.8"
tokio = { version = "1", features = ["rt", "rt-multi-thread", "net", "io-util", "sync", "time"] }
parking_lot = "0.12"
thiserror = "2"
notify = "8"
signal-hook = "0.3"
dirs = "6"
libc = "0.2"
tracing = "0.1"
tracing-appender = "0.2"
tracing-subscriber = { version = "0.3", features = ["env-filter", "fmt"] }
core-foundation = "0.10"
core-graphics = "0.24"
foreign-types = "0.5"
objc2 = "0.6"
objc2-foundation = "0.3"
objc2-app-kit = "0.3"
