[package]
name = "event_relay"
version = "0.1.0"
edition = "2021"
publish = false

[dependencies]
axum = "=0.8.9"
chrono = "=0.4.45"
serde = { version = "=1.0.229", features = ["derive"] }
serde_json = "=1.0.151"
socketioxide = "=0.15.2"
sysinfo = "=0.39.6"
tokio = { version = "=1.53.2", features = ["full"] }
tower = "=0.5.3"
tower-http = { version = "=0.7.1", features = ["cors", "compression-gzip"] }
tracing = "=0.1.44"
tracing-subscriber = { version = "=0.3.23", features = ["env-filter"] }
