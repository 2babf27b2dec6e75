[package]
name = "sshgo"
version = "0.1.0"
edition = "2021"
publish = false

[dependencies]
base64 = "=0.21.7"
dirs = "=5.0.1"
whoami = "=1.6.1"
reqwest = { version = "=0.11.27", default-features = false, features = ["blocking", "json"] }
serde = { version = "=1.0.229", features = ["derive"] }
