[package]
name = "sessions"
version = "0.1.0"
edition = "2021"
publish = false

[dependencies]
async-graphql = { version = "=7.2.1", features = ["chrono"] }
async-graphql-axum = "=7.2.1"
axum = "=0.8.9"
chrono = "=0.4.45"
clap = { version = "=4.6.7", features = ["derive", "env"] }
dotenvy = "=0.15.7"
opentelemetry = "=0.33.0"
opentelemetry-http = "=0.33.0"
opentelemetry_sdk = "=0.33.0"
reqwest = { version = "=0.13.5", default-features = false }
sea-orm = { version = "=2.0.4", default-features = false, features = ["macros", "with-chrono"] }
tokio = { version = "=1.53.2", features = ["macros", "rt-multi-thread", "net"] }
tracing = "=0.1.44"
tracing-opentelemetry = "=0.34.0"
tracing-subscriber = "=0.3.23"
url = "=2.5.8"
