[package]
name = "avalanche_installer"
version = "0.1.0"
edition = "2021"
publish = false

[dependencies]
aws-manager = { version = "=0.30.4", default-features = false, features = ["s3"] }
compress-manager = "=0.0.10"
http-manager = "=0.0.14"
log = "0.4"
random-manager = "=0.0.5"
reqwest = { version = "=0.11.27", default-features = false, features = ["rustls-tls"] }
serde = { version = "1", features = ["derive"] }
serde_json = "1"
tokio = { version = "1", features = ["time"] }
