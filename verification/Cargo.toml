[package]
name = "fake_artist"
version = "0.1.0"
edition = "2021"
publish = false

[dependencies]
axum = "0.7"
itertools = "0.12"
ractor = "0.9"
rand = "0.8"
serde = { version = "1", features = ["derive"] }
socketioxide = { version = "0.14", features = ["extensions"] }
tokio = { version = "1", features = ["macros", "net", "rt-multi-thread", "signal"] }
tower-http = { version = "0.5", features = ["fs", "set-header"] }
tracing = "0.1"
tracing-subscriber = "0.3"
ts-rs = { version = "*", features = ["uuid-impl"] }
uuid = { version = "1", features = ["serde", "v4"] }
