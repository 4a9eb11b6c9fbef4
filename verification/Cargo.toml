[package]
name = "chirp-auth-client"
version = "0.7.0"
edition = "2021"
publish = false

[dependencies]
base64 = "0.22"
http = "1"
reqwest = { version = "0.12", default-features = false, features = ["json", "rustls-tls"] }
ring = "0.17"
serde = { version = "1", features = ["derive"] }
serde_json = "1"
thiserror = "2"
time = "0.3"
