[package]
name = "autopilot"
version = "0.1.0"
edition = "2021"
publish = false

[dependencies]
axum = "*"
figment = { version = "*", features = ["toml", "env"] }
serde = { version = "*", features = ["derive"] }
tokio = { version = "*", features = ["macros", "rt-multi-thread", "net", "process", "time", "sync"] }
tower = "*"
tower-http = { version = "*", features = ["trace"] }
tracing = "*"
tracing-subscriber = "*"
