[package]
name = "shai_http"
version = "0.1.0"
edition = "2021"
publish = false

[dependencies]
async-trait = "=0.1.92"
axum = "=0.8.9"
chrono = "=0.4.45"
futures = "=0.3.34"
openai_dive = { version = "=1.4.3", default-features = false, features = ["stream"] }
serde = { version = "=1.0.229", features = ["derive"] }
serde_json = "=1.0.154"
tokio = { version = "=1.54.1", features = ["macros", "net", "rt-multi-thread", "sync", "time"] }
tokio-stream = { version = "=0.1.19", features = ["sync"] }
tower-http = { version = "=0.7.1", features = ["cors"] }
tracing = "=0.1.44"
uuid = { version = "=1.29.0", features = ["v4"] }
