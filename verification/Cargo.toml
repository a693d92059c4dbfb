[package]
name = "kubecore"
version = "0.1.0"
edition = "2021"
publish = false

[dependencies]
serde_json = "1"
serde = { version = "1", features = ["derive"] }
sha1 = "0.10"
base64 = "0.13"
rand = "0.8"
