[package]
name = "rio_transport"
version = "0.1.0"
edition = "2021"
publish = false

[dependencies]
base64 = "0.13"
reqwest = { version = "*", default-features = false, features = ["blocking"] }
ssh2 = "*"
serde = { version = "*", features = ["derive"] }
serde_json = "*"
