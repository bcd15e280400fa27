[package]
name = "matrix-tui"
version = "0.1.0"
edition = "2021"
publish = false

[dependencies]
ctrlc = "3"
dirs = "5"
lazy_static = "1"
matrix-sdk = { version = "0.7", default-features = false, features = ["rustls-tls"] }
ratatui = "0.27"
serde = { version = "1", features = ["derive"] }
serde_json = "1"
strum = { version = "0.26", features = ["derive"] }
tokio = { version = "1", features = ["full"] }
