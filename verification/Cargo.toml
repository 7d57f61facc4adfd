[package]
name = "voxio"
version = "0.1.0"
edition = "2021"
publish = false

[dependencies]
hound = "3.5"
uuid = { version = "1", features = ["v4"] }
dirs = "5"
serde = { version = "1", features = ["derive"] }
serde_json = "1"
thiserror = "1"
reqwest = { version = "0.12", default-features = false, features = ["blocking", "multipart", "json", "rustls-tls"] }
arboard = { version = "3", default-features = false }
