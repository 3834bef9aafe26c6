[package]
name = "spectre"
version = "0.1.0"
edition = "2021"
publish = false

[dependencies]
aes-gcm = "=0.10.3"
argon2 = "=0.5.3"
rand = "=0.8.8"
chrono = "=0.4.45"
uuid = { version = "=1.29.0", features = ["v4", "serde"] }
hex = "=0.4.3"
jsonwebtoken = "=9.3.1"
prometheus = { version = "=0.13.4", default-features = false }
async-nats = "=0.51.0"
serde = { version = "=1.0.229", features = ["derive"] }
serde_json = "=1.0.154"
toml = "=1.1.8"
thiserror = "=2.0.21"
tokio = { version = "=1.54.1", features = ["full"] }
axum = "=0.7.9"
axum-extra = { version = "=0.9.6", features = ["typed-header"] }
tower = { version = "=0.4.13", features = ["buffer", "limit", "util"] }
tracing = "=0.1.44"
tracing-subscriber = { version = "=0.3.23", features = ["env-filter", "json"] }
dotenv = "=0.15.0"
futures = "=0.3.34"
async-trait = "=0.1.92"
once_cell = "=1.21.4"
rustls = "=0.23.46"
rustls-pemfile = "=2.2.0"
opentelemetry = "0.23"
opentelemetry_sdk = { version = "0.23", features = ["rt-tokio"] }
opentelemetry-otlp = "0.16"
opentelemetry-semantic-conventions = "0.15"
tracing-opentelemetry = "0.24"
