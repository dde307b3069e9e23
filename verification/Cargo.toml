[package]
name = "murmur"
version = "0.1.0"
edition = "2021"
publish = false

[dependencies]
arboard = { version = "3.7.0", default-features = false }
dirs = "6.0.0"
rdev = "0.5.3"
reqwest = { version = "0.12.28", default-features = false, features = ["blocking", "native-tls"] }
serde = { version = "1.0.229", features = ["derive"] }
serde_json = "1.0.154"
