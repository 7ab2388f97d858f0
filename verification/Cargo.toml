[package]
name = "chuchi"
version = "0.1.0"
edition = "2021"
publish = false

[dependencies]
rand = "0.8"
sha1 = "0.10"
base64 = "0.13"
matchit = "0.8"
tokio = { version = "1", features = ["rt", "rt-multi-thread", "sync", "time", "macros"] }
flume = "0.11"
serde = { version = "1", features = ["derive"] }
serde_json = "1"
aho-corasick = "1"
reqwest = { version = "0.12", default-features = false }
