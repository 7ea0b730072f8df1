[package]
name = "estate_search"
version = "0.1.0"
edition = "2021"
publish = false

[dependencies]
serde_json = "=1.0.154"
qdrant-client = "=1.20.0"
fastembed = { version = "=3.14.1", default-features = false, features = ["ort-load-dynamic", "online"] }
ort-sys = "=2.0.0-rc.4"
tokio = { version = "=1.54.1", features = ["macros", "rt-multi-thread"] }
