[package]
name = "russh_sftp"
version = "0.1.0"
edition = "2021"
publish = false

[dependencies]
bytes = "=1.12.1"
chrono = { version = "=0.4.45", default-features = false, features = ["clock", "std"] }
tokio = { version = "=1.54.1", features = ["full"] }
tokio-util = "0.7"
thiserror = "=2.0.21"
serde = "=1.0.229"
tracing = "=0.1.44"
