[package]
name = "sorai"
version = "0.1.0"
edition = "2021"
publish = false

[dependencies]
anyhow = "1"
axum = "0.8"
axum-extra = { version = "*", features = ["typed-header"] }
bytes = "1"
chrono = "0.4"
clap = { version = "4", features = ["derive"] }
http-body-util = "0.1"
hyper = "1"
hyper-util = { version = "0.1", features = ["client-legacy", "http1", "tokio"] }
log = "0.4"
metrics = "*"
metrics-exporter-prometheus = { version = "*", default-features = false }
mime_guess = "2"
regex = "1"
rust-embed = "8"
serde = { version = "1", features = ["derive"] }
serde_json = "1"
strip-ansi-escapes = "0.2"
tabled = "*"
tokio = { version = "1", features = ["full"] }
toml = "*"
tower = "0.5"
tower-http = { version = "0.6", features = ["cors", "request-id", "timeout", "trace"] }
tracing = "0.1"
tracing-appender = "0.2"
tracing-subscriber = { version = "0.3", features = ["env-filter"] }
type-safe-id = "*"
