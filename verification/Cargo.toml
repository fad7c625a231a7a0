[package]
name = "media_ingest"
version = "0.1.0"
edition = "2021"
publish = false

[dependencies]
mime_guess = "2"
xxhash-rust = { version = "*", features = ["xxh3"] }
serde_json = "1"
serde = { version = "1", features = ["derive"] }
notify = "*"
walkdir = "2"
reqwest = { version = "0.12", default-features = false, features = ["blocking", "json"] }
