[package]
name = "rust_plurk"
version = "0.1.0"
edition = "2021"
publish = false

[dependencies]
base64 = "0.21"
clap = { version = "4", features = ["derive"] }
rand = "0.8"
reqwest = { version = "0.11", features = ["json", "multipart", "stream"] }
ring = "0.17"
serde = { version = "1", features = ["derive"] }
serde_json = "1"
serde_urlencoded = "0.7"
tokio = { version = "1", features = ["fs", "macros", "rt-multi-thread"] }
tokio-util = { version = "0.7", features = ["codec"] }
toml = "0.8"
url = "2"
url-escape = "0.1"
