[package]
name = "rhttp"
version = "0.1.0"
edition = "2021"
publish = false

[dependencies]
reqwest = { version = "0.12", default-features = false, features = ["rustls-tls", "http2"] }
tokio-util = "0.7"
futures-util = "0.3"
chrono = { version = "0.4", default-features = false, features = ["std"] }
