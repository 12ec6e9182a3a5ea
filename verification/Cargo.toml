[package]
name = "runaway_daemon"
version = "0.1.0"
edition = "2021"
publish = false

[dependencies]
anyhow = "1"
async-trait = "0.1"
directories = "*"
libc = "0.2"
notify-rust = "4"
rusqlite = "*"
serde = { version = "1", features = ["derive"] }
serde_json = "1"
tokio = { version = "1", features = ["rt-multi-thread", "macros", "net", "io-util", "sync", "time"] }
toml = "*"
tracing = "0.1"
tracing-subscriber = "0.3"
