[package]
name = "current_weather"
version = "0.1.0"
edition = "2021"
publish = false

[dependencies]
url = "=2.5.8"
reqwest = { version = "=0.12.28", default-features = false, features = ["rustls-tls"] }
serde = { version = "=1.0.229", features = ["derive"] }
serde_json = "=1.0.154"
influxdb = { version = "=0.7.2", features = ["derive"] }
uuid = { version = "=1.29.1", features = ["v4"] }
chrono = "=0.4.45"
twelf = { version = "=0.15.0", features = ["toml"] }
tokio = { version = "=1.54.1", features = ["full"] }
tracing = "=0.1.44"
tracing-subscriber = { version = "=0.3.23", features = ["env-filter"] }
axum = "=0.7.9"
prometheus = "=0.13.4"
once_cell = "=1.21.4"
sysinfo = "=0.30.13"
log = "=0.4.35"
thiserror = "=1.0.69"
strum_macros = "=0.26.4"
