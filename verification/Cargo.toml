[package]
name = "rtsp_redirect"
version = "0.1.0"
edition = "2021"
publish = false

[dependencies]
rtsp-types = "*"
url = "*"
tokio = { version = "*", features = ["rt-multi-thread", "net", "io-util", "macros"] }
reqwest = { version = "*", default-features = false, features = ["rustls-tls"] }
anyhow = "*"
thiserror = "*"
