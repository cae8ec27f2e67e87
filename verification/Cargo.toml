[package]
name = "feedreader"
version = "0.1.0"
edition = "2021"
publish = false

[dependencies]
anyhow = "1"
askama = "0.12"
base64 = "0.21"
chrono = "0.4"
feed-rs = "1"
futures = "0.3"
reqwest = { version = "0.11", default-features = false, features = ["rustls-tls"] }
rweb = "0.15"
serde = { version = "1", features = ["derive"] }
tokio = { version = "1", features = ["macros", "rt-multi-thread"] }
tokio-postgres = "0.7"
warp = "0.3"
