[package]
name = "pseudoide_core"
version = "0.1.0"
edition = "2021"
publish = false

[dependencies]
dirs = "5"
serde_json = "1"
serde = { version = "1", features = ["derive"] }
zip = { version = "2", default-features = false, features = ["deflate"] }
futures-util = "0.3"
reqwest = { version = "0.12", default-features = false, features = ["stream", "rustls-tls"] }
