[package]
name = "virtual_rack"
version = "0.1.0"
edition = "2021"
publish = false

[dependencies]
tokio = { version = "1", features = ["sync", "rt-multi-thread", "macros", "net"] }
tokio-stream = { version = "0.1", features = ["sync"] }
futures = "0.3"
axum = "0.7"
axum-server = { version = "0.7", features = ["tls-rustls"] }
tower-http = { version = "0.6", features = ["fs", "trace"] }
tracing = "0.1"
tracing-subscriber = { version = "0.3", features = ["env-filter"] }
rcgen = "0.13"
serde = { version = "1", features = ["derive"] }
serde_json = "1"
pipewire = "0.8"
