[package]
name = "reessaie"
version = "0.1.0"
edition = "2021"
publish = false

[dependencies]
async-trait = "0.1"
chrono = { version = "0.4", default-features = false, features = ["std", "clock"] }
http = "1"
reqwest = { version = "0.12", default-features = false }
reqwest-middleware = "0.4"
reqwest-retry = "0.7"
tokio = { version = "1", features = ["rt", "macros", "time"] }
tracing = "0.1"
