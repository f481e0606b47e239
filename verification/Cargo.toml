[package]
name = "tank_sensor"
version = "0.1.0"
edition = "2021"
publish = false

[dependencies]
heapless = "=0.8.0"
time = { version = "=0.3.55", default-features = false }
hifitime = { version = "=4.3.1", default-features = false }
log = "=0.4.34"
libm = "=0.2.16"
serde = { version = "=1.0.229", features = ["derive"] }
serde-json-core = "=0.7.0"
critical-section = "=1.2.0"
embassy-time = "=0.5.1"
embassy-sync = "=0.8.0"
rand_core = "=0.10.1"
static_cell = "=2.1.1"
anyhow = "1"
axum = "0.7"
chrono = "0.4"
once_cell = "1"
opentelemetry = "0.27"
opentelemetry-appender-tracing = "0.27"
opentelemetry-otlp = "0.27"
opentelemetry-semantic-conventions = { version = "0.27", features = ["semconv_experimental"] }
opentelemetry_sdk = { version = "0.27", features = ["rt-tokio"] }
tokio = { version = "1", features = ["full"] }
tower-http = { version = "0.6", features = ["trace"] }
tracing = "0.1"
tracing-subscriber = { version = "0.3", features = ["env-filter"] }
