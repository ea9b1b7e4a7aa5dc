[package]
name = "panw_api_ollama"
version = "0.1.0"
edition = "2021"
publish = false

[dependencies]
serde = { version = "1", features = ["derive"] }
serde_json = "1"
serde_yml = "*"
uuid = { version = "1", features = ["v4"] }
chrono = "0.4"
thiserror = "*"
axum = "*"
tokio = { version = "1", features = ["rt-multi-thread", "macros", "net"] }
reqwest = { version = "*", default-features = false, features = ["json", "stream"] }
bytes = "1"
futures-util = "0.3"
http-body-util = "*"
tower-http = { version = "*", features = ["trace"] }
tracing = "0.1"
tracing-subscriber = "0.3"
