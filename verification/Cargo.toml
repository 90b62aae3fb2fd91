[package]
name = "plan_builder"
version = "0.1.0"
edition = "2021"
publish = false

[dependencies]
datafusion = { version = "23", default-features = false }
chrono = "=0.4.39"
anyhow = "=1.0.104"
napi = { version = "=2.16.17", default-features = false, features = ["napi4", "async", "error_anyhow"] }
napi-derive = "=2.16.13"
mimalloc-rust = "=0.2.1"

[dev-dependencies]
tokio = { version = "=1.54.1", features = ["rt", "rt-multi-thread"] }
