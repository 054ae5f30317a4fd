[package]
name = "cog"
version = "0.1.0"
edition = "2021"
publish = false

[dependencies]
axum = "=0.8.9"
chrono = { version = "=0.4.45", features = ["serde"] }
flume = "=0.12.0"
map-macro = "=0.3.0"
schemars = { version = "=1.2.2", features = ["chrono04", "url2"] }
serde = { version = "=1.0.229", features = ["derive"] }
serde_json = "=1.0.151"
thiserror = "=2.0.21"
tokio = { version = "=1.53.2", features = ["sync", "macros"] }
url = { version = "=2.5.8", features = ["serde"] }
