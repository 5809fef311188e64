[package]
name = "gui"
version = "0.1.0"
edition = "2021"
publish = false

[dependencies]
chrono = "0.4"
anyhow = "1"
serde = { version = "1", features = ["derive"] }
serde_json = "1"
tokio = { version = "1", features = ["rt-multi-thread", "macros", "time", "io-util", "net", "sync"] }
tracing = "0.1"
dirs = "5"
fs2 = "0.4"
zip = { version = "0.6", default-features = false, features = ["deflate"] }
