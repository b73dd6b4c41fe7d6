[package]
name = "yagna"
version = "0.1.0"
edition = "2021"
publish = false

[dependencies]
actix = "=0.13.5"
anyhow = "=1.0.104"
awc = { version = "3", default-features = false }
chrono = { version = "=0.4.45", features = ["serde"] }
diesel = { version = "=2.3.14", features = ["sqlite", "chrono"] }
futures = "=0.3.34"
indicatif = "=0.17.11"
log = "=0.4.35"
self_update = { version = "=0.41.0", default-features = false }
serde = { version = "=1.0.229", features = ["derive"] }
serde_json = "=1.0.154"
tokio = { version = "=1.54.1", features = ["time", "macros", "rt"] }
url = "=2.5.8"
