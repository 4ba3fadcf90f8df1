[package]
name = "gearbox_maintenance"
version = "0.1.0"
edition = "2021"
publish = false

[dependencies]
anyhow = "*"
axum = "*"
chrono = "*"
clap = { version = "*", features = ["derive"] }
parse_duration = "*"
prometheus-client = "*"
rhai = "*"
tokio = { version = "*", features = ["macros", "rt-multi-thread", "time", "net"] }
tracing = "*"
tracing-subscriber = { version = "*", features = ["env-filter"] }
transmission-rpc = "*"
url = "*"
