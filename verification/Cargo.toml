[package]
name = "nasiko_agents"
version = "0.1.0"
edition = "2021"
publish = false

[dependencies]
a2a-lf = "0.3"
a2a-server-lf = "0.3"
async-stream = "0.3"
axum = "0.8"
chrono = "=0.4.45"
dotenvy = "0.15"
futures = "0.3"
opentelemetry = "=0.30.0"
opentelemetry-otlp = { version = "0.30", features = ["grpc-tonic"] }
opentelemetry_sdk = "=0.30.0"
opentelemetry-semantic-conventions = "0.30"
reqwest = { version = "0.12", default-features = false, features = ["json", "stream", "rustls-tls"] }
rig-core = "0.36"
serde_json = "=1.0.154"
tokio = { version = "1", features = ["full"] }
tower-http = { version = "0.6", features = ["trace"] }
tracing = "0.1"
tracing-opentelemetry = "0.31"
tracing-subscriber = { version = "0.3", features = ["env-filter"] }
walkdir = "2"
