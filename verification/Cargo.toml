[package]
name = "ethryx"
version = "0.1.2"
edition = "2021"
publish = false

[dependencies]
bytes = "*"
clap = { version = "*", features = ["derive", "env"] }
futures-util = "*"
http = "*"
http-body-util = "*"
hyper = { version = "*", features = ["full"] }
hyper-rustls = { version = "*", default-features = false, features = ["http1", "http2", "webpki-roots", "aws-lc-rs", "tls12"] }
hyper-tungstenite = "*"
hyper-util = { version = "*", features = ["full"] }
metrics = "*"
metrics-exporter-prometheus = { version = "*", default-features = false }
metrics-util = "*"
opentelemetry = "*"
opentelemetry-otlp = "*"
opentelemetry_sdk = "*"
rustls = "*"
serde = { version = "*", features = ["derive"] }
serde_json = { version = "*", features = ["raw_value"] }
tokio = { version = "*", features = ["full"] }
tokio-tungstenite = "*"
tracing = "*"
tracing-opentelemetry = "*"
tracing-subscriber = { version = "*", features = ["env-filter", "json"] }
