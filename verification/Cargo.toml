[package]
name = "blooio"
version = "0.1.0"
edition = "2021"
publish = false

[dependencies]
bytes = "=1.12.1"
http = "=1.5.0"
reqwest = { version = "=0.12.28", default-features = false, features = ["rustls-tls"] }
serde = { version = "=1.0.229", features = ["derive"] }
serde_json = "=1.0.154"
thiserror = "=2.0.21"
tokio = { version = "=1.54.1", features = ["time"] }
tracing = "=0.1.44"
ureq = { version = "=3.5.1", default-features = false, features = ["rustls"] }
uuid = { version = "=1.29.0", features = ["v4"] }
