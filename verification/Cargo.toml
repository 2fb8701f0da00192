[package]
name = "rs_ycomb_hn_cli"
version = "0.1.0"
edition = "2021"
publish = false

[dependencies]
futures = "0.1"
hyper = "0.11"
native-tls = "0.2"
serde_json = { version = "1", features = ["preserve_order"] }
slog = "1"
slog-stream = "1"
slog-term = "1"
tokio-core = "0.1"
tokio-service = "0.1"
tokio-tls = "0.2"
