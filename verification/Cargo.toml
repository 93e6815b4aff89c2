[package]
name = "lyrics_pipeline"
version = "0.1.0"
edition = "2021"
publish = false

[dependencies]
lofty = "0.18"
walkdir = "2"
urlencoding = "2"
serde_json = "1"
fs-err = "2"
reqwest = { version = "0.11", default-features = false, features = ["blocking", "rustls-tls"] }
