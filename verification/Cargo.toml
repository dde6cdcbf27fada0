[package]
name = "poli_page"
version = "1.0.0"
edition = "2021"
publish = false

[dependencies]
bytes = "1"
futures-core = "0.3"
http = "1"
httpdate = "1"
rand = "0.8"
reqwest = { version = "0.12", default-features = false, features = ["stream", "rustls-tls"] }
serde = { version = "1", features = ["derive"] }
serde_json = "1"
thiserror = "2"
tokio = { version = "1", features = ["rt", "rt-multi-thread", "time", "fs", "io-util", "macros"] }
tracing = "0.1"
url = "2"
uuid = { version = "1", features = ["v4"] }
