[package]
name = "whoops"
version = "0.1.0"
edition = "2021"
publish = false

[dependencies]
serde_json = "=1.0.154"
serde_yaml = "=0.9.34"
chrono = { version = "=0.4.45", default-features = false, features = ["clock"] }
serde = { version = "=1.0.229", features = ["derive"] }
tokio = { version = "=1.54.1", features = ["rt-multi-thread", "macros", "sync", "time", "signal"] }
anyhow = "=1.0.104"
thiserror = "=1.0.69"
async-trait = "=0.1.92"
futures = "=0.3.34"
log = "=0.4.34"
tracing = "=0.1.44"
reqwest = { version = "=0.12.28", default-features = false }
figment = { version = "=0.10.19", features = ["yaml", "env"] }
humantime-serde = "=1.1.1"
dotenvy = "=0.15.7"
