[package]
name = "geoify"
version = "0.1.0"
edition = "2021"
publish = false

[dependencies]
serde = { version = "=1.0.229", features = ["derive"] }
serde_json = "=1.0.154"
bytes = "=1.12.1"
reqwest = { version = "=0.11.27", default-features = false, features = ["json", "rustls-tls"] }
websocket-lite = "=0.5.2"
futures = "=0.3.34"
tokio-util = { version = "=0.7.20", features = ["codec"] }
eyre = "=0.6.14"
color-eyre = "=0.6.5"
tracing = "=0.1.44"
tracing-subscriber = { version = "=0.3.23", features = ["env-filter"] }
tracing-appender = "=0.2.5"
dotenv = "=0.15.0"
config = { version = "=0.13.4", default-features = false }
actix-web = "=4.18.1"
