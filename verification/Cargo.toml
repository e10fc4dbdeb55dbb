[package]
name = "backend"
version = "0.1.0"
edition = "2021"
publish = false

[dependencies]
axum = "=0.7.9"
mime_guess = "=2.0.5"
tokio = { version = "=1.54.1", features = ["fs", "macros", "net", "rt-multi-thread"] }
tower-http = { version = "0.6", features = ["compression-gzip", "timeout", "trace"] }
tracing = "=0.1.44"
tracing-subscriber = "=0.3.23"
